//! Reading gnuplot's version from what `gnuplot --version` prints.
use vstd::prelude::*;
use crate::options::GnuplotVersion;
use crate::text::{dec_nat, digit_char};

verus! {

/// The characters at which the version text is cut into fields.
pub open spec fn is_separator(c: char) -> bool {
    c == ' ' || c == '.'
}

/// The fields of `s` between spaces and dots, empty ones included, as `str::split` cuts
/// them: there is always one more field than there are separators.
pub open spec fn split_fields(s: Seq<char>) -> Seq<Seq<char>>
    decreases s.len(),
{
    if s.len() == 0 {
        seq![Seq::empty()]
    } else {
        let f = split_fields(s.drop_last());
        if is_separator(s.last()) {
            f.push(Seq::empty())
        } else {
            f.update(f.len() - 1, f.last().push(s.last()))
        }
    }
}

/// There is always at least one field.
pub proof fn lemma_split_fields_nonempty(s: Seq<char>)
    ensures
        split_fields(s).len() >= 1,
    decreases s.len(),
{
    if s.len() > 0 {
        lemma_split_fields_nonempty(s.drop_last());
    }
}

/// A decimal digit.
pub open spec fn is_digit(c: char) -> bool {
    '0' <= c && c <= '9'
}

/// Every character is a decimal digit.
pub open spec fn all_digits(s: Seq<char>) -> bool {
    forall|i: int| 0 <= i < s.len() ==> #[trigger] is_digit(s[i])
}

/// The number that a string of decimal digits writes.
pub open spec fn digits_value(s: Seq<char>) -> nat
    decreases s.len(),
{
    if s.len() == 0 {
        0
    } else {
        digits_value(s.drop_last()) * 10 + ((s.last() as nat) - ('0' as nat)) as nat
    }
}

/// What `i32::from_str_radix(s, 10)` accepts: an optional sign, then at least one
/// decimal digit, and a value that fits in an `i32`.
pub open spec fn parse_i32(s: Seq<char>) -> Option<i32> {
    if s.len() > 0 && s[0] == '-' {
        let d = s.drop_first();
        if d.len() > 0 && all_digits(d) && digits_value(d) <= 0x8000_0000 {
            Some((0 - digits_value(d)) as i32)
        } else {
            None
        }
    } else {
        let d = if s.len() > 0 && s[0] == '+' { s.drop_first() } else { s };
        if d.len() > 0 && all_digits(d) && digits_value(d) <= 0x7fff_ffff {
            Some(digits_value(d) as i32)
        } else {
            None
        }
    }
}

/// The word that the version text starts with.
pub open spec fn gnuplot_word() -> Seq<char> {
    seq!['g', 'n', 'u', 'p', 'l', 'o', 't']
}

/// The version that a text such as `gnuplot 5.4 patchlevel 2` names: its first field
/// must be `gnuplot`, and its second and third fields the major and minor numbers.
pub open spec fn version_of_text(s: Seq<char>) -> Option<GnuplotVersion> {
    let f = split_fields(s);
    if f.len() > 2 && f[0] == gnuplot_word() {
        match (parse_i32(f[1]), parse_i32(f[2])) {
            (Some(major), Some(minor)) => Some(GnuplotVersion { major, minor }),
            _ => None,
        }
    } else {
        None
    }
}

/// Cutting `s`, a separator and `u` gives the fields of `s` followed by those of `u`.
pub proof fn lemma_split_fields_at_separator(s: Seq<char>, c: char, u: Seq<char>)
    requires
        is_separator(c),
    ensures
        split_fields(s.push(c) + u) == split_fields(s) + split_fields(u),
    decreases u.len(),
{
    lemma_split_fields_nonempty(s);
    if u.len() == 0 {
        assert(s.push(c) + u =~= s.push(c));
        assert(s.push(c).drop_last() =~= s);
        assert(split_fields(s).push(Seq::<char>::empty()) =~= split_fields(s) + seq![Seq::<char>::empty()]);
    } else {
        let t = s.push(c) + u;
        assert(t.drop_last() =~= s.push(c) + u.drop_last());
        lemma_split_fields_at_separator(s, c, u.drop_last());
        lemma_split_fields_nonempty(u.drop_last());
        let f = split_fields(s);
        let g = split_fields(u.drop_last());
        assert(t.last() == u.last());
        if is_separator(u.last()) {
            assert((f + g).push(Seq::<char>::empty()) =~= f + g.push(Seq::<char>::empty()));
        } else {
            assert((f + g).update((f + g).len() - 1, (f + g).last().push(u.last()))
                =~= f + g.update(g.len() - 1, g.last().push(u.last())));
        }
    }
}

/// A text without separators is a single field.
pub proof fn lemma_split_fields_single(w: Seq<char>)
    requires
        forall|i: int| 0 <= i < w.len() ==> !is_separator(#[trigger] w[i]),
    ensures
        split_fields(w) == seq![w],
    decreases w.len(),
{
    if w.len() > 0 {
        lemma_split_fields_single(w.drop_last());
        assert(!is_separator(w[w.len() - 1]));
        assert(w.drop_last().push(w.last()) =~= w);
        assert(seq![w.drop_last()].update(0, w.drop_last().push(w.last())) =~= seq![w]);
    } else {
        assert(w =~= Seq::<char>::empty());
    }
}

/// The digit character of `k` is a digit and stands for `k`.
proof fn lemma_digit_char_value(k: nat)
    requires
        k < 10,
    ensures
        is_digit(digit_char(k)),
        (digit_char(k) as nat) - ('0' as nat) == k,
{
}

/// The decimal text of a number is a nonempty string of digits that reads back as the number.
pub proof fn lemma_dec_nat_reads_back(n: nat)
    ensures
        dec_nat(n).len() > 0,
        all_digits(dec_nat(n)),
        digits_value(dec_nat(n)) == n,
    decreases n,
{
    lemma_digit_char_value(n % 10);
    if n < 10 {
        assert(n % 10 == n);
        let c = digit_char(n);
        assert(dec_nat(n) == seq![c]);
        assert(seq![c].drop_last() =~= Seq::<char>::empty());
        assert(seq![c].last() == c);
        assert(digits_value(Seq::<char>::empty()) == 0);
        assert(digits_value(seq![c]) == 0 * 10 + ((c as nat) - ('0' as nat)));
    } else {
        lemma_dec_nat_reads_back(n / 10);
        let p = dec_nat(n / 10);
        let d = digit_char(n % 10);
        assert(dec_nat(n) == p.push(d));
        assert(p.push(d).drop_last() =~= p);
        assert forall|i: int| 0 <= i < p.push(d).len() implies #[trigger] is_digit(p.push(d)[i]) by {
            if i < p.len() {
                assert(p.push(d)[i] == p[i]);
            }
        }
        assert(digits_value(p.push(d)) == digits_value(p) * 10 + ((d as nat) - ('0' as nat)));
        assert((n / 10) * 10 + n % 10 == n) by (nonlinear_arith);
        assert(digits_value(dec_nat(n)) == n);
    }
}

/// What `gnuplot --version` prints, `gnuplot <major>.<minor>` followed by nothing or by a
/// separator and anything, reads back as that version.
pub proof fn lemma_version_text_reads_back(major: nat, minor: nat, rest: Seq<char>)
    requires
        major <= 0x7fff_ffff,
        minor <= 0x7fff_ffff,
        rest.len() == 0 || is_separator(rest[0]),
    ensures
        version_of_text(gnuplot_word() + seq![' '] + dec_nat(major) + seq!['.'] + dec_nat(minor) + rest)
            == Some(GnuplotVersion { major: major as i32, minor: minor as i32 }),
{
    let w = gnuplot_word();
    let d1 = dec_nat(major);
    let d2 = dec_nat(minor);
    lemma_dec_nat_reads_back(major);
    lemma_dec_nat_reads_back(minor);
    let text = w + seq![' '] + d1 + seq!['.'] + d2 + rest;
    lemma_split_fields_single(w);
    assert forall|i: int| 0 <= i < d1.len() implies !is_separator(#[trigger] d1[i]) by {
        assert(is_digit(d1[i]));
    }
    assert forall|i: int| 0 <= i < d2.len() implies !is_separator(#[trigger] d2[i]) by {
        assert(is_digit(d2[i]));
    }
    lemma_split_fields_single(d1);
    lemma_split_fields_single(d2);
    let tail2 = if rest.len() == 0 { split_fields(d2) } else { split_fields(d2) + split_fields(rest.drop_first()) };
    if rest.len() == 0 {
        assert(d2 + rest =~= d2);
    } else {
        assert(d2 + rest =~= d2.push(rest[0]) + rest.drop_first());
        lemma_split_fields_at_separator(d2, rest[0], rest.drop_first());
    }
    assert(split_fields(d2 + rest) == tail2);
    assert(d1 + seq!['.'] + d2 + rest =~= d1.push('.') + (d2 + rest));
    lemma_split_fields_at_separator(d1, '.', d2 + rest);
    assert(text =~= w.push(' ') + (d1 + seq!['.'] + d2 + rest));
    lemma_split_fields_at_separator(w, ' ', d1 + seq!['.'] + d2 + rest);
    let f = split_fields(text);
    assert(f == seq![w] + (seq![d1] + tail2));
    assert(f[0] == w);
    assert(f[1] == d1);
    assert(f[2] == d2);
    assert(d1[0] != '-' && d1[0] != '+') by {
        assert(is_digit(d1[0]));
    }
    assert(d2[0] != '-' && d2[0] != '+') by {
        assert(is_digit(d2[0]));
    }
}

/// Whether two character vectors hold the same characters.
fn same_chars(a: &Vec<char>, b: &Vec<char>) -> (r: bool)
    ensures
        r == (a@ == b@),
{
    if a.len() != b.len() {
        return false;
    }
    let mut i: usize = 0;
    while i < a.len()
        invariant
            a@.len() == b@.len(),
            i <= a@.len(),
            forall|j: int| 0 <= j < i ==> a@[j] == b@[j],
        decreases a@.len() - i,
    {
        if a[i] != b[i] {
            return false;
        }
        i = i + 1;
    }
    assert(a@ =~= b@);
    true
}

/// A digit's value, the number so far, and the next digit appended: the number grows.
proof fn lemma_digits_value_push(s: Seq<char>, c: char)
    requires
        is_digit(c),
    ensures
        digits_value(s.push(c)) == digits_value(s) * 10 + ((c as nat) - ('0' as nat)),
        digits_value(s.push(c)) >= digits_value(s),
{
    assert(s.push(c).drop_last() =~= s);
}

/// Reads a string of decimal digits; `None` where a character is no digit. Values above
/// `cap` come back as some number above `cap`.
fn read_digits(d: &Vec<char>, start: usize) -> (r: Option<u64>)
    requires
        start <= d@.len(),
    ensures
        r is Some <==> all_digits(d@.subrange(start as int, d@.len() as int)),
        r matches Some(v) ==> {
            let n = digits_value(d@.subrange(start as int, d@.len() as int));
            (n <= 0x8000_0000 ==> v == n) && (n > 0x8000_0000 ==> v > 0x8000_0000)
        },
{
    let mut v: u64 = 0;
    let mut i: usize = start;
    while i < d.len()
        invariant
            start <= i <= d@.len(),
            all_digits(d@.subrange(start as int, i as int)),
            v <= 0x8_0000_0009,
            ({
                let n = digits_value(d@.subrange(start as int, i as int));
                (n <= 0x8000_0000 ==> v == n) && (n > 0x8000_0000 ==> v > 0x8000_0000)
            }),
        decreases d@.len() - i,
    {
        let c = d[i];
        if !('0' <= c && c <= '9') {
            proof {
                let t = d@.subrange(start as int, d@.len() as int);
                assert(t[i - start] == c);
                assert(!is_digit(t[i - start]));
            }
            return None;
        }
        let digit = (c as u32 - '0' as u32) as u64;
        proof {
            let p = d@.subrange(start as int, i as int);
            assert(d@.subrange(start as int, i + 1) =~= p.push(c));
            lemma_digits_value_push(p, c);
        }
        if v <= 0x8000_0000 {
            v = v * 10 + digit;
        }
        i = i + 1;
    }
    Some(v)
}

/// Reads a field as `i32::from_str_radix(field, 10)` does.
fn parse_field(d: &Vec<char>) -> (r: Option<i32>)
    ensures
        r == parse_i32(d@),
{
    if d.len() > 0 && d[0] == '-' {
        assert(d@.subrange(1, d@.len() as int) =~= d@.drop_first());
        if d.len() == 1 {
            return None;
        }
        match read_digits(d, 1) {
            Some(v) => if v <= 0x8000_0000 {
                Some((0 - (v as i64)) as i32)
            } else {
                None
            },
            None => None,
        }
    } else {
        let start: usize = if d.len() > 0 && d[0] == '+' { 1 } else { 0 };
        assert(d@.subrange(1, d@.len() as int) =~= d@.drop_first());
        assert(d@.subrange(0, d@.len() as int) =~= d@);
        if d.len() == start {
            return None;
        }
        match read_digits(d, start) {
            Some(v) => if v <= 0x7fff_ffff {
                Some(v as i32)
            } else {
                None
            },
            None => None,
        }
    }
}

/// Reads the gnuplot version from what `gnuplot --version` prints: the text must start
/// with the field `gnuplot`, then the major and minor numbers, separated by spaces or
/// dots.
pub fn parse_version(text: &str) -> (r: Option<GnuplotVersion>)
    ensures
        r == version_of_text(text@),
{
    let n = text.unicode_len();
    let mut done: Vec<Vec<char>> = Vec::new();
    let mut cur: Vec<char> = Vec::new();
    let mut i: usize = 0;
    while i < n
        invariant
            n == text@.len(),
            i <= n,
            split_fields(text@.subrange(0, i as int)) =~= done@.map_values(|v: Vec<char>| v@).push(cur@),
        decreases n - i,
    {
        let c = text.get_char(i);
        proof {
            let p = text@.subrange(0, i as int);
            assert(text@.subrange(0, i + 1).drop_last() =~= p);
            lemma_split_fields_nonempty(p);
        }
        if c == ' ' || c == '.' {
            done.push(cur);
            cur = Vec::new();
        } else {
            cur.push(c);
        }
        i = i + 1;
    }
    assert(text@.subrange(0, n as int) =~= text@);
    let ghost fields = split_fields(text@);
    if done.len() < 2 {
        return None;
    }
    let word: Vec<char> = vec!['g', 'n', 'u', 'p', 'l', 'o', 't'];
    assert(word@ =~= gnuplot_word());
    assert(fields[0] == done@[0]@);
    if !same_chars(&done[0], &word) {
        return None;
    }
    let major = parse_field(&done[1]);
    let minor_field: &Vec<char> = if done.len() > 2 { &done[2] } else { &cur };
    assert(fields[2] == minor_field@);
    let minor = parse_field(minor_field);
    match (major, minor) {
        (Some(major), Some(minor)) => Some(GnuplotVersion { major, minor }),
        _ => None,
    }
}

} // verus!
