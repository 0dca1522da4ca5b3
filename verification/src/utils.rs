//! Small verified text utilities shared by the classifier and the schema
//! front end: substring containment over character sequences, and attribute
//! lookup by name.

use vstd::prelude::*;

verus! {

/// `needle` occurs as a contiguous subsequence of `hay`.
pub open spec fn contains_seq(hay: Seq<char>, needle: Seq<char>) -> bool {
    exists|i: int|
        0 <= i && i + needle.len() <= hay.len() && #[trigger] hay.subrange(i, i + needle.len())
            == needle
}

/// Whether `needle` matches `hay` exactly at offset `i`.
fn matches_at(hay: &str, needle: &str, i: usize) -> (r: bool)
    requires
        i + needle@.len() <= hay@.len(),
        hay@.len() <= usize::MAX,
    ensures
        r == (hay@.subrange(i as int, i + needle@.len()) == needle@),
{
    let m = needle.unicode_len();
    let mut j: usize = 0;
    while j < m
        invariant
            j <= m,
            m == needle@.len(),
            i + m <= hay@.len() <= usize::MAX,
            forall|k: int| 0 <= k < j ==> hay@[i + k] == needle@[k],
        decreases m - j,
    {
        if hay.get_char(i + j) != needle.get_char(j) {
            proof {
                assert(hay@.subrange(i as int, i + needle@.len()) != needle@) by {
                    if hay@.subrange(i as int, i + needle@.len()) == needle@ {
                        assert(hay@.subrange(i as int, i + needle@.len())[j as int] == hay@[i + j]);
                    }
                }
            }
            return false;
        }
        j += 1;
    }
    proof {
        assert(hay@.subrange(i as int, i + needle@.len()) =~= needle@);
    }
    true
}

/// Substring search: whether `needle` occurs anywhere in `hay`.
pub fn contains_str(hay: &str, needle: &str) -> (r: bool)
    ensures
        r == contains_seq(hay@, needle@),
{
    let n = hay.unicode_len();
    let m = needle.unicode_len();
    if m > n {
        proof {
            assert(!contains_seq(hay@, needle@));
        }
        return false;
    }
    if m == 0 {
        proof {
            assert(hay@.subrange(0, 0 + needle@.len() as int) =~= needle@);
            assert(contains_seq(hay@, needle@));
        }
        return true;
    }
    let mut i: usize = 0;
    while i <= n - m
        invariant
            n == hay@.len(),
            m == needle@.len(),
            0 < m <= n,
            i <= n - m + 1,
            forall|i0: int| 0 <= i0 < i ==> #[trigger] hay@.subrange(i0, i0 + m) != needle@,
        decreases n - m + 1 - i,
    {
        if matches_at(hay, needle, i) {
            proof {
                assert(0 <= i && i + needle@.len() <= hay@.len() && hay@.subrange(
                    i as int,
                    i + needle@.len(),
                ) == needle@);
            }
            return true;
        }
        i += 1;
    }
    proof {
        assert(!contains_seq(hay@, needle@)) by {
            if contains_seq(hay@, needle@) {
                let i0 = choose|i0: int|
                    0 <= i0 && i0 + needle@.len() <= hay@.len() && #[trigger] hay@.subrange(
                        i0,
                        i0 + needle@.len(),
                    ) == needle@;
                assert(hay@.subrange(i0, i0 + m) != needle@);
            }
        }
    }
    false
}

/// The character-sequence models of a list of attribute names, in order.
pub open spec fn attr_models(attrs: Seq<String>) -> Seq<Seq<char>> {
    attrs.map_values(|s: String| s@)
}

/// `ident` occurs among the attribute names.
pub open spec fn spec_has_attribute(attrs: Seq<Seq<char>>, ident: Seq<char>) -> bool {
    exists|i: int| 0 <= i < attrs.len() && attrs[i] == ident
}

/// Check whether an attribute with the given name is present.
pub fn get_attribute(attrs: &Vec<String>, ident: &str) -> (r: bool)
    ensures
        r == spec_has_attribute(attr_models(attrs@), ident@),
{
    let key = String::from_str(ident);
    let mut i: usize = 0;
    while i < attrs.len()
        invariant
            i <= attrs@.len(),
            key@ == ident@,
            forall|j: int| 0 <= j < i ==> attr_models(attrs@)[j] != ident@,
        decreases attrs@.len() - i,
    {
        if attrs[i] == key {
            proof {
                assert(attr_models(attrs@)[i as int] == ident@);
            }
            return true;
        }
        proof {
            assert(attr_models(attrs@)[i as int] == attrs@[i as int]@);
        }
        i += 1;
    }
    false
}

} // verus!
