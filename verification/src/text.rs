//! Small verified text utilities: extracting the characters of a string,
//! string equality and substring search, and the one case mapping the name
//! mangling helpers need.
use vstd::prelude::*;
use vstd::std_specs::iter::IteratorSpec;

verus! {

broadcast use vstd::string::axiom_spec_iter, vstd::string::next_postcondition;

/// The sequence of characters that `char::to_uppercase` yields for one
/// character. The mapping depends on the character alone; it is named here
/// and never spelled out.
pub uninterp spec fn upper_of(c: char) -> Seq<char>;

/// Relies on char::to_uppercase: the uppercase mapping of one character,
/// which depends on the character alone.
#[verifier::external_body]
pub fn char_upper(c: char) -> (r: String)
    ensures
        r@ == upper_of(c),
{
    c.to_uppercase().collect::<String>()
}

/// Relies on String::push: appends exactly one character at the end.
#[verifier::external_body]
pub fn push_char(s: &mut String, c: char)
    ensures
        final(s)@ == old(s)@ + seq![c],
{
    s.push(c);
}

/// The characters of a string slice, as a vector.
pub fn chars_of(s: &str) -> (r: Vec<char>)
    ensures
        r@ == s@,
{
    let mut out: Vec<char> = Vec::new();
    let mut it = s.chars();
    loop
        invariant
            out@ + it.remaining() == s@,
        ensures
            out@ == s@,
        decreases s@.len() - out@.len(),
    {
        match it.next() {
            Some(c) => {
                out.push(c);
            },
            None => {
                proof {
                    assert(out@ + it.remaining() =~= out@);
                }
                break;
            },
        }
    }
    out
}

/// Whether two string slices hold the same characters.
pub fn str_eq(a: &str, b: &str) -> (r: bool)
    ensures
        r == (a@ == b@),
{
    let oa = a.to_owned();
    let ob = b.to_owned();
    oa == ob
}

/// Whether `n` occurs in `h` starting at position `p`.
pub open spec fn matches_at(h: Seq<char>, n: Seq<char>, p: int) -> bool {
    &&& 0 <= p
    &&& p + n.len() <= h.len()
    &&& h.subrange(p, p + n.len()) == n
}

/// Whether `n` occurs somewhere in `h`. The empty needle occurs in every
/// string.
pub open spec fn contains_spec(h: Seq<char>, n: Seq<char>) -> bool {
    exists|p: int| matches_at(h, n, p)
}

/// Whether the characters of `n` stand in `h` at position `p`.
fn check_match_at(h: &Vec<char>, n: &Vec<char>, p: usize) -> (r: bool)
    requires
        p + n@.len() <= h@.len(),
        h@.len() <= usize::MAX,
    ensures
        r == matches_at(h@, n@, p as int),
{
    let m = n.len();
    let mut j: usize = 0;
    while j < m
        invariant
            m == n@.len(),
            p + m <= h@.len(),
            h@.len() <= usize::MAX,
            j <= m,
            forall|k: int| 0 <= k < j ==> h@[p + k] == n@[k],
        decreases m - j,
    {
        if h[p + j] != n[j] {
            proof {
                assert(h@.subrange(p as int, p + n@.len())[j as int] == h@[p + j]);
                assert(!matches_at(h@, n@, p as int));
            }
            return false;
        }
        j += 1;
    }
    proof {
        assert(h@.subrange(p as int, p + n@.len()) =~= n@);
    }
    true
}

/// Whether `needle` occurs as a contiguous substring of `hay`.
pub fn str_contains(hay: &str, needle: &str) -> (r: bool)
    ensures
        r == contains_spec(hay@, needle@),
{
    let h = chars_of(hay);
    let n = chars_of(needle);
    if n.len() == 0 {
        proof {
            assert(h@.subrange(0, 0) =~= n@);
            assert(matches_at(h@, n@, 0));
        }
        return true;
    }
    if n.len() > h.len() {
        proof {
            assert(forall|p: int| !matches_at(h@, n@, p));
        }
        return false;
    }
    let last = h.len() - n.len();
    let mut p: usize = 0;
    loop
        invariant
            1 <= n@.len() <= h@.len(),
            h@.len() <= usize::MAX,
            last == h@.len() - n@.len(),
            p <= last + 1,
            h@ == hay@,
            n@ == needle@,
            forall|q: int| 0 <= q < p ==> !matches_at(h@, n@, q),
        ensures
            contains_spec(hay@, needle@) == (p <= last && matches_at(h@, n@, p as int)),
        decreases last + 1 - p,
    {
        if p > last {
            proof {
                assert(forall|q: int| matches_at(h@, n@, q) ==> 0 <= q <= last);
            }
            break;
        }
        if check_match_at(&h, &n, p) {
            break;
        }
        p += 1;
    }
    p <= last && check_match_at(&h, &n, p)
}

} // verus!
