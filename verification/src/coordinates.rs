//! Positions of labels, arrows and legends.
use vstd::prelude::*;
use crate::text::put;

verus! {

/// How a coordinate passed to a plotting command is read. Each holds the value in
/// scientific notation with 16 fractional digits (`{:.16e}`).
#[derive(Clone, Debug)]
pub enum Coordinate {
    /// Relative to the graph: (0, 0) is the bottom left corner and (1, 1) the top right.
    Graph(String),
    /// In the units of the axes.
    Axis(String),
}

impl Coordinate {
    /// The coordinate as a gnuplot command writes it.
    pub open spec fn text(&self) -> Seq<char> {
        match self {
            Coordinate::Graph(v) => " graph "@ + v@,
            Coordinate::Axis(v) => " first "@ + v@,
        }
    }

    /// Appends the coordinate as a gnuplot command writes it.
    pub fn write(&self, out: &mut String)
        ensures
            final(out)@ == old(out)@ + self.text(),
    {
        let ghost start = out@;
        match self {
            Coordinate::Graph(v) => {
                put(out, " graph ");
                put(out, v.as_str());
            },
            Coordinate::Axis(v) => {
                put(out, " first ");
                put(out, v.as_str());
            },
        }
        assert(out@ =~= start + self.text());
    }

    /// The coordinate as a gnuplot command writes it.
    pub fn to_text(&self) -> (res: String)
        ensures
            res@ == self.text(),
    {
        let mut res = String::new();
        self.write(&mut res);
        assert(res@ =~= self.text());
        res
    }
}

} // verus!
