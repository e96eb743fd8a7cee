//! Option lists: when an option is given more than once, the first one counts.
use vstd::prelude::*;

verus! {

/// An option whose variant is named by a small number, its tag.
pub trait Tagged {
    spec fn tag(&self) -> u8;

    fn tag_of(&self) -> (t: u8)
        ensures
            t == self.tag();
}

/// `i` is the first position in `s` whose option has tag `t`.
pub open spec fn is_first_with_tag<T: Tagged>(s: Seq<T>, t: u8, i: int) -> bool {
    &&& 0 <= i < s.len()
    &&& s[i].tag() == t
    &&& forall|j: int| 0 <= j < i ==> #[trigger] s[j].tag() != t
}

/// The first position in `s` whose option has tag `t`, if there is one.
pub open spec fn first_with_tag<T: Tagged>(s: Seq<T>, t: u8) -> Option<int> {
    if exists|i: int| is_first_with_tag(s, t, i) {
        Some(choose|i: int| is_first_with_tag(s, t, i))
    } else {
        None
    }
}

/// Whether some option of `s` has tag `t`.
pub open spec fn has_tag<T: Tagged>(s: Seq<T>, t: u8) -> bool {
    exists|i: int| 0 <= i < s.len() && #[trigger] s[i].tag() == t
}

/// The first position is the only position that is first.
pub proof fn lemma_first_unique<T: Tagged>(s: Seq<T>, t: u8, i: int)
    requires
        is_first_with_tag(s, t, i),
    ensures
        first_with_tag(s, t) == Some(i),
{
    let k = choose|k: int| is_first_with_tag(s, t, k);
    if k < i {
        assert(s[k].tag() != t);
    } else if i < k {
        assert(s[i].tag() != t);
    }
}

/// Some option has the tag exactly when there is a first one.
pub proof fn lemma_first_exists<T: Tagged>(s: Seq<T>, t: u8)
    ensures
        has_tag(s, t) <==> first_with_tag(s, t) is Some,
    decreases s.len(),
{
    if has_tag(s, t) {
        let i = choose|i: int| 0 <= i < s.len() && #[trigger] s[i].tag() == t;
        least_position(s, t, i);
    }
}

proof fn least_position<T: Tagged>(s: Seq<T>, t: u8, i: int)
    requires
        0 <= i < s.len(),
        s[i].tag() == t,
    ensures
        exists|k: int| is_first_with_tag(s, t, k),
    decreases i,
{
    if exists|j: int| 0 <= j < i && #[trigger] s[j].tag() == t {
        let j = choose|j: int| 0 <= j < i && #[trigger] s[j].tag() == t;
        least_position(s, t, j);
    } else {
        assert(is_first_with_tag(s, t, i));
    }
}

/// Options appended to a list never override one it already has; where it has none, the
/// first of the appended ones counts.
pub proof fn lemma_first_of_append<T: Tagged>(a: Seq<T>, b: Seq<T>, t: u8)
    ensures
        has_tag(a, t) ==> first_with_tag(a + b, t) == first_with_tag(a, t),
        !has_tag(a, t) ==> first_with_tag(a + b, t) == match first_with_tag(b, t) {
            Some(i) => Some(i + a.len()),
            None => None,
        },
{
    lemma_first_exists(a, t);
    lemma_first_exists(b, t);
    let ab = a + b;
    if has_tag(a, t) {
        let i = first_with_tag(a, t)->0;
        assert(is_first_with_tag(a, t, i));
        assert forall|j: int| 0 <= j < i implies #[trigger] ab[j].tag() != t by {
            assert(ab[j] == a[j]);
        }
        assert(ab[i] == a[i]);
        lemma_first_unique(ab, t, i);
    } else {
        match first_with_tag(b, t) {
            Some(i) => {
                assert(is_first_with_tag(b, t, i));
                let k = i + a.len();
                assert forall|j: int| 0 <= j < k implies #[trigger] ab[j].tag() != t by {
                    if j < a.len() {
                        assert(ab[j] == a[j]);
                    } else {
                        assert(ab[j] == b[j - a.len()]);
                    }
                }
                assert(ab[k] == b[i]);
                lemma_first_unique(ab, t, k);
            },
            None => {
                lemma_first_exists(ab, t);
                if has_tag(ab, t) {
                    let j = choose|j: int| 0 <= j < ab.len() && #[trigger] ab[j].tag() == t;
                    if j < a.len() {
                        assert(ab[j] == a[j]);
                    } else {
                        assert(ab[j] == b[j - a.len()]);
                    }
                }
            },
        }
    }
}

/// Finds the first option of `v` with tag `t`.
pub fn find_first<T: Tagged>(v: &Vec<T>, t: u8) -> (r: Option<usize>)
    ensures
        match r {
            Some(i) => first_with_tag(v@, t) == Some(i as int),
            None => first_with_tag(v@, t) is None,
        },
{
    let mut i: usize = 0;
    while i < v.len()
        invariant
            i <= v@.len(),
            forall|j: int| 0 <= j < i ==> #[trigger] v@[j].tag() != t,
        decreases v@.len() - i,
    {
        if v[i].tag_of() == t {
            proof {
                lemma_first_unique(v@, t, i as int);
            }
            return Some(i);
        }
        i = i + 1;
    }
    proof {
        lemma_first_exists(v@, t);
    }
    None
}

} // verus!
