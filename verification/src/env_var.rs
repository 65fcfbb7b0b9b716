//! One variable of a child's environment.
use vstd::prelude::*;
use vstd::string::*;
use crate::error::XError;
use crate::text::{is_nul_free, lemma_nul_free_concat, nul_free};

verus! {

/// The text `key=value`, as a process-replacement call takes a variable.
pub open spec fn entry_text(key: Seq<char>, value: Seq<char>) -> Seq<char> {
    key + seq!['='] + value
}

/// An entry made of a valid key and a valid value is valid.
pub proof fn lemma_entry_text_nul_free(key: Seq<char>, value: Seq<char>)
    requires
        nul_free(key),
        nul_free(value),
    ensures
        nul_free(entry_text(key, value)),
{
    lemma_nul_free_concat(key, seq!['=']);
    lemma_nul_free_concat(key + seq!['='], value);
}

/// A key and a value, both valid texts.
#[derive(Debug)]
pub struct EnvVar {
    key: String,
    value: String,
}

impl EnvVar {
    /// The key's text.
    pub closed spec fn key_text(&self) -> Seq<char> {
        self.key@
    }

    /// The value's text.
    pub closed spec fn value_text(&self) -> Seq<char> {
        self.value@
    }

    /// Key and value as a pair of texts.
    pub open spec fn pair(&self) -> (Seq<char>, Seq<char>) {
        (self.key_text(), self.value_text())
    }

    /// Neither the key nor the value holds the terminator.
    pub open spec fn wf(&self) -> bool {
        nul_free(self.key_text()) && nul_free(self.value_text())
    }

    /// Makes a variable of a key and a value, or refuses the pair when one of
    /// them holds the terminator.
    pub fn from_str_pair(key: &str, value: &str) -> (r: Result<EnvVar, XError>)
        ensures
            r is Ok <==> nul_free(key@) && nul_free(value@),
            r is Ok ==> r->Ok_0.wf() && r->Ok_0.pair() == (key@, value@),
            r is Err ==> r->Err_0 == XError::InvalidString,
    {
        if !is_nul_free(key) {
            return Err(XError::InvalidString);
        }
        if !is_nul_free(value) {
            return Err(XError::InvalidString);
        }
        Ok(EnvVar { key: key.to_owned(), value: value.to_owned() })
    }

    /// The key.
    pub fn key(&self) -> (r: &str)
        ensures
            r@ == self.key_text(),
    {
        self.key.as_str()
    }

    /// The value.
    pub fn value(&self) -> (r: &str)
        ensures
            r@ == self.value_text(),
    {
        self.value.as_str()
    }

    /// The variable written as `key=value`.
    pub fn formatted(&self) -> (r: String)
        ensures
            r@ == entry_text(self.key_text(), self.value_text()),
            self.wf() ==> nul_free(r@),
    {
        let mut out: String = self.key.clone();
        out.append("=");
        out.append(self.value.as_str());
        proof {
            reveal_strlit("=");
            assert("="@ =~= seq!['=']);
            if self.wf() {
                lemma_entry_text_nul_free(self.key@, self.value@);
            }
        }
        out
    }
}

} // verus!
