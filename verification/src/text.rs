//! Strings that can be handed to a process-replacement call: those without a
//! terminator character inside.
use vstd::prelude::*;
use vstd::std_specs::iter::IteratorSpec;
use vstd::string::*;

verus! {

/// The character that ends a string in the operating system's encoding.
pub open spec fn terminator() -> char {
    '\0'
}

/// A text is valid when the terminator occurs nowhere in it.
pub open spec fn nul_free(s: Seq<char>) -> bool {
    forall|i: int| 0 <= i < s.len() ==> #[trigger] s[i] != terminator()
}

/// Two valid texts joined are valid, and a valid join has valid parts.
pub proof fn lemma_nul_free_concat(a: Seq<char>, b: Seq<char>)
    ensures
        nul_free(a + b) <==> (nul_free(a) && nul_free(b)),
{
    if nul_free(a + b) {
        assert forall|i: int| 0 <= i < a.len() implies #[trigger] a[i] != terminator() by {
            assert((a + b)[i] == a[i]);
        }
        assert forall|i: int| 0 <= i < b.len() implies #[trigger] b[i] != terminator() by {
            assert((a + b)[a.len() + i] == b[i]);
        }
    }
}

/// The texts that a sequence of strings holds.
pub open spec fn texts(v: Seq<String>) -> Seq<Seq<char>> {
    Seq::new(v.len(), |i: int| v[i]@)
}

/// The texts that a sequence of string slices holds.
pub open spec fn slice_texts(v: Seq<&str>) -> Seq<Seq<char>> {
    Seq::new(v.len(), |i: int| v[i]@)
}

/// The key and value texts that a sequence of string pairs holds.
pub open spec fn pairs_of(v: Seq<(String, String)>) -> Seq<(Seq<char>, Seq<char>)> {
    Seq::new(v.len(), |i: int| (v[i].0@, v[i].1@))
}

/// Every text of the sequence is valid.
pub open spec fn all_nul_free(v: Seq<Seq<char>>) -> bool {
    forall|i: int| 0 <= i < v.len() ==> nul_free(#[trigger] v[i])
}

/// Every key and every value of the sequence is valid.
pub open spec fn pairs_nul_free(v: Seq<(Seq<char>, Seq<char>)>) -> bool {
    forall|i: int| 0 <= i < v.len() ==> nul_free((#[trigger] v[i]).0) && nul_free(v[i].1)
}

/// Tells whether a text is valid, in one pass over its characters.
pub fn is_nul_free(s: &str) -> (r: bool)
    ensures
        r == nul_free(s@),
{
    broadcast use {axiom_spec_iter, next_postcondition};

    let mut chars = s.chars();
    let ghost mut seen: int = 0;
    loop
        invariant
            0 <= seen <= s@.len(),
            chars.remaining() == s@.subrange(seen, s@.len() as int),
            forall|j: int| 0 <= j < seen ==> #[trigger] s@[j] != terminator(),
        decreases s@.len() - seen,
    {
        match chars.next() {
            Some(c) => {
                proof {
                    assert(c == s@[seen]);
                    assert(chars.remaining() =~= s@.subrange(seen + 1, s@.len() as int));
                }
                if c == '\0' {
                    return false;
                }
                proof {
                    seen = seen + 1;
                }
            },
            None => {
                proof {
                    assert(seen == s@.len());
                }
                return true;
            },
        }
    }
}

} // verus!
