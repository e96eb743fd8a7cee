# gnuplot

A gnuplot controller: figures of 2D, 3D and polar axes are described in Rust and
written out as a gnuplot script, with the data inline as little-endian 64-bit floats.

The script builder is verified with Verus: every function that writes a command states
the exact text it writes, and the library proves properties such as that escaped text
reads back to the original and holds no newline, that the bytes written for each plot
are exactly what its `binary` arguments tell gnuplot to read, that the first of repeated
options counts, and that the version text printed by `gnuplot --version` reads back as
that version.

Layout:

- `src/` — the verified library.
  - `text`: writing text and numbers; escaping.
  - `number`, `coordinates`, `color`, `options`: the values a plot is described with.
  - `first`: option lists, where the first of an option counts.
  - `element`: plot elements, their data and their plot command arguments.
  - `axes_common`, `axes2d`, `axes3d`, `axes_polar`: the axes and their commands.
  - `figure`: a figure of several axes and the whole script.
  - `version`: reading gnuplot's version.
- `app/` — what runs around the library: the gnuplot process, files, and the
  conversions from floating-point values into the text and bit patterns the library
  takes.
- `tests/` — tests of the library on concrete values.
