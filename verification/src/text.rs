//! Building the text of a gnuplot script.
use vstd::prelude::*;

verus! {

/// Appends `s` to `out`.
pub fn put(out: &mut String, s: &str)
    ensures
        final(out)@ == old(out)@ + s@,
{
    out.append(s);
}

/// `String::push`: appends one character.
#[verifier::external_body]
pub(crate) fn put_char(out: &mut String, c: char)
    ensures
        final(out)@ == old(out)@.push(c),
{
    out.push(c);
}

/// The decimal digit character of `d`, for `d < 10`.
pub open spec fn digit_char(d: nat) -> char {
    if d == 0 { '0' }
    else if d == 1 { '1' }
    else if d == 2 { '2' }
    else if d == 3 { '3' }
    else if d == 4 { '4' }
    else if d == 5 { '5' }
    else if d == 6 { '6' }
    else if d == 7 { '7' }
    else if d == 8 { '8' }
    else { '9' }
}

/// The decimal text of a natural number, without leading zeros.
pub open spec fn dec_nat(n: nat) -> Seq<char>
    decreases n,
{
    if n < 10 {
        seq![digit_char(n)]
    } else {
        dec_nat(n / 10).push(digit_char(n % 10))
    }
}

/// The decimal text of an integer, with a leading `-` when it is negative.
pub open spec fn dec_int(i: int) -> Seq<char> {
    if i < 0 {
        seq!['-'] + dec_nat((-i) as nat)
    } else {
        dec_nat(i as nat)
    }
}

fn digit(d: u64) -> (c: char)
    requires
        d < 10,
    ensures
        c == digit_char(d as nat),
{
    if d == 0 { '0' }
    else if d == 1 { '1' }
    else if d == 2 { '2' }
    else if d == 3 { '3' }
    else if d == 4 { '4' }
    else if d == 5 { '5' }
    else if d == 6 { '6' }
    else if d == 7 { '7' }
    else if d == 8 { '8' }
    else { '9' }
}

/// Appends the decimal text of `n`.
pub fn put_u64(out: &mut String, n: u64)
    ensures
        final(out)@ == old(out)@ + dec_nat(n as nat),
    decreases n,
{
    if n >= 10 {
        put_u64(out, n / 10);
    }
    put_char(out, digit(n % 10));
    assert(old(out)@ + dec_nat(n as nat) =~= final(out)@) by {
        if n >= 10 {
            assert(dec_nat(n as nat) == dec_nat((n / 10) as nat).push(digit_char((n % 10) as nat)));
        }
    }
}

/// Appends the decimal text of `i`.
pub fn put_i64(out: &mut String, i: i64)
    ensures
        final(out)@ == old(out)@ + dec_int(i as int),
{
    if i < 0 {
        put_char(out, '-');
        let m: i128 = 0i128 - (i as i128);
        put_u64(out, m as u64);
        assert(final(out)@ =~= old(out)@ + dec_int(i as int));
    } else {
        put_u64(out, i as u64);
    }
}

/// What `escape` writes for one character.
pub open spec fn escape_char(c: char) -> Seq<char> {
    if c == '\\' {
        seq!['\\', '\\']
    } else if c == '\n' {
        seq!['\\', 'n']
    } else if c == '\t' {
        seq!['\\', 't']
    } else if c == '"' {
        seq!['\\', '"']
    } else if c == '`' {
        seq!['\\', '`']
    } else {
        seq![c]
    }
}

/// The text of `s` as it stands between double quotes in a gnuplot command:
/// backslash, newline, tab, double quote and backquote are escaped with a backslash.
pub open spec fn escaped(s: Seq<char>) -> Seq<char>
    decreases s.len(),
{
    if s.len() == 0 {
        Seq::empty()
    } else {
        escape_char(s[0]) + escaped(s.drop_first())
    }
}

/// Escaping a concatenation escapes each part.
pub proof fn lemma_escaped_append(a: Seq<char>, b: Seq<char>)
    ensures
        escaped(a + b) == escaped(a) + escaped(b),
    decreases a.len(),
{
    if a.len() == 0 {
        assert(a + b =~= b);
        assert(escaped(a) =~= Seq::<char>::empty());
        assert(escaped(a) + escaped(b) =~= escaped(b));
    } else {
        assert((a + b).drop_first() =~= a.drop_first() + b);
        lemma_escaped_append(a.drop_first(), b);
        assert((a + b)[0] == a[0]);
        assert(escaped(a + b) =~= escaped(a) + escaped(b));
    }
}

/// The character that a backslash followed by `c` stands for in an escaped text.
pub open spec fn unescape_char(c: char) -> char {
    if c == 'n' {
        '\n'
    } else if c == 't' {
        '\t'
    } else {
        c
    }
}

/// Reads an escaped text back: a backslash and the character after it stand for one
/// character, every other character for itself.
pub open spec fn unescaped(t: Seq<char>) -> Seq<char>
    decreases t.len(),
{
    if t.len() == 0 {
        Seq::empty()
    } else if t[0] == '\\' && t.len() >= 2 {
        seq![unescape_char(t[1])] + unescaped(t.skip(2))
    } else {
        seq![t[0]] + unescaped(t.drop_first())
    }
}

/// Escaping loses nothing: reading an escaped text back gives the text that was escaped,
/// so two different texts never escape to the same one.
pub proof fn lemma_unescape_escaped(s: Seq<char>)
    ensures
        unescaped(escaped(s)) == s,
    decreases s.len(),
{
    if s.len() > 0 {
        let c = s[0];
        let rest = escaped(s.drop_first());
        lemma_unescape_escaped(s.drop_first());
        let t = escape_char(c) + rest;
        assert(escaped(s) == t);
        if escape_char(c).len() == 2 {
            assert(t.skip(2) =~= rest);
        } else {
            assert(t.drop_first() =~= rest);
        }
        assert(s =~= seq![c] + s.drop_first());
    }
}

/// An escaped text holds no newline and no tab: it stays on the line of its command.
pub proof fn lemma_escaped_single_line(s: Seq<char>)
    ensures
        forall|i: int| 0 <= i < escaped(s).len() ==> #[trigger] escaped(s)[i] != '\n' && escaped(s)[i] != '\t',
    decreases s.len(),
{
    if s.len() > 0 {
        lemma_escaped_single_line(s.drop_first());
        let e = escape_char(s[0]);
        let rest = escaped(s.drop_first());
        assert forall|i: int| 0 <= i < escaped(s).len() implies #[trigger] escaped(s)[i] != '\n' && escaped(s)[i] != '\t' by {
            if i >= e.len() {
                assert(escaped(s)[i] == rest[i - e.len()]);
            }
        }
    }
}

/// Read from left to right inside double quotes, `t` never closes them: every double quote
/// and every backslash in it is escaped by the backslash before it.
pub open spec fn stays_quoted(t: Seq<char>) -> bool
    decreases t.len(),
{
    if t.len() == 0 {
        true
    } else if t[0] == '\\' {
        t.len() >= 2 && stays_quoted(t.skip(2))
    } else if t[0] == '"' {
        false
    } else {
        stays_quoted(t.drop_first())
    }
}

/// Escaped text placed between double quotes never closes them early.
pub proof fn lemma_escaped_stays_quoted(s: Seq<char>)
    ensures
        stays_quoted(escaped(s)),
    decreases s.len(),
{
    if s.len() > 0 {
        lemma_escaped_stays_quoted(s.drop_first());
        let rest = escaped(s.drop_first());
        let t = escape_char(s[0]) + rest;
        assert(escaped(s) == t);
        if escape_char(s[0]).len() == 2 {
            assert(t.skip(2) =~= rest);
        } else {
            assert(t.drop_first() =~= rest);
        }
    }
}

/// Escapes the characters of `s` that gnuplot treats specially inside a double-quoted string.
pub fn escape(s: &str) -> (res: String)
    ensures
        res@ == escaped(s@),
{
    let mut res = String::new();
    let n = s.unicode_len();
    let mut i: usize = 0;
    while i < n
        invariant
            n == s@.len(),
            i <= n,
            res@ == escaped(s@.take(i as int)),
        decreases n - i,
    {
        let c = s.get_char(i);
        if c == '\\' {
            put(&mut res, "\\\\");
        } else if c == '\n' {
            put(&mut res, "\\n");
        } else if c == '\t' {
            put(&mut res, "\\t");
        } else if c == '"' {
            put(&mut res, "\\\"");
        } else if c == '`' {
            put(&mut res, "\\`");
        } else {
            put_char(&mut res, c);
        }
        proof {
            reveal_strlit("\\\\");
            reveal_strlit("\\n");
            reveal_strlit("\\t");
            reveal_strlit("\\\"");
            reveal_strlit("\\`");
            let t = s@.take(i as int);
            assert(s@.take(i + 1) =~= t + seq![c]);
            lemma_escaped_append(t, seq![c]);
            assert(escaped(seq![c]) =~= escape_char(c)) by {
                assert(seq![c].drop_first() =~= Seq::<char>::empty());
                assert(escaped(Seq::<char>::empty()) =~= Seq::<char>::empty());
                assert(seq![c][0] == c);
            }
            assert(res@ =~= escaped(s@.take(i + 1)));
        }
        i = i + 1;
    }
    assert(s@.take(n as int) =~= s@);
    res
}

/// Encoding a concatenation encodes each part.
pub proof fn lemma_encode_utf8_append(a: Seq<char>, b: Seq<char>)
    ensures
        vstd::utf8::encode_utf8(a + b) == vstd::utf8::encode_utf8(a) + vstd::utf8::encode_utf8(b),
    decreases a.len(),
{
    if a.len() == 0 {
        assert(a + b =~= b);
        assert(vstd::utf8::encode_utf8(a) =~= Seq::<u8>::empty());
        assert(vstd::utf8::encode_utf8(a) + vstd::utf8::encode_utf8(b) =~= vstd::utf8::encode_utf8(b));
    } else {
        assert((a + b).drop_first() =~= a.drop_first() + b);
        assert((a + b)[0] == a[0]);
        lemma_encode_utf8_append(a.drop_first(), b);
        assert(vstd::utf8::encode_utf8(a + b) =~= vstd::utf8::encode_utf8(a) + vstd::utf8::encode_utf8(b));
    }
}

/// Appends the UTF-8 bytes of `s`.
pub fn put_bytes(out: &mut Vec<u8>, s: &str)
    ensures
        final(out)@ == old(out)@ + vstd::utf8::encode_utf8(s@),
{
    let b = s.as_bytes();
    let ghost start = out@;
    let mut i: usize = 0;
    while i < b.len()
        invariant
            i <= b@.len(),
            b@ == vstd::utf8::encode_utf8(s@),
            out@ == start + b@.take(i as int),
        decreases b@.len() - i,
    {
        out.push(b[i]);
        assert(b@.take(i + 1) =~= b@.take(i as int).push(b@[i as int]));
        i = i + 1;
    }
    assert(b@.take(b@.len() as int) =~= b@);
}

/// `s` begins with `t`.
pub open spec fn starts_with(s: Seq<char>, t: Seq<char>) -> bool {
    t.len() <= s.len() && s.subrange(0, t.len() as int) == t
}

/// `s` finishes with `t`.
pub open spec fn ends_with(s: Seq<char>, t: Seq<char>) -> bool {
    t.len() <= s.len() && s.subrange(s.len() - t.len(), s.len() as int) == t
}

/// A text begins with what a prefix of it begins with.
pub proof fn lemma_starts_with_append(a: Seq<char>, b: Seq<char>, t: Seq<char>)
    requires
        starts_with(a, t),
    ensures
        starts_with(a + b, t),
{
    assert((a + b).subrange(0, t.len() as int) =~= a.subrange(0, t.len() as int));
}

/// A text finishes with what a suffix of it finishes with.
pub proof fn lemma_ends_with_append(a: Seq<char>, b: Seq<char>, t: Seq<char>)
    requires
        ends_with(b, t),
    ensures
        ends_with(a + b, t),
{
    assert((a + b).subrange((a + b).len() - t.len(), (a + b).len() as int)
        =~= b.subrange(b.len() - t.len(), b.len() as int));
}

/// A text finishes with its last part and begins with its first.
pub proof fn lemma_parts(a: Seq<char>, b: Seq<char>)
    ensures
        starts_with(a + b, a),
        ends_with(a + b, b),
{
    assert((a + b).subrange(0, a.len() as int) =~= a);
    assert((a + b).subrange((a + b).len() - b.len(), (a + b).len() as int) =~= b);
}

} // verus!
