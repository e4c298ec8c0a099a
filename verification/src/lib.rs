//! Layered configuration resolution for a voice-assistant platform.
//!
//! The crate resolves configuration file locations through the XDG Base
//! Directory rules, loads JSON or YAML files into in-memory dictionaries,
//! merges them with key-overwrite semantics, tracks staleness through file
//! modification times, and enforces a read-only policy on system layers.
//!
//! All path and environment handling works on plain strings: callers read the
//! process environment and the file system and hand the observed values in,
//! so that every decision the library takes is a function of its arguments.

pub mod codec;
pub mod config;
pub mod dict;
pub mod locations;
pub mod xdg;

use vstd::prelude::*;

verus! {

/// Character-wise equality of two string slices.
pub fn str_eq(a: &str, b: &str) -> (r: bool)
    ensures
        r == (a@ == b@),
{
    let na = a.unicode_len();
    let nb = b.unicode_len();
    if na != nb {
        return false;
    }
    let mut i: usize = 0;
    while i < na
        invariant
            na == a@.len(),
            na == b@.len(),
            i <= na,
            forall|j: int| 0 <= j < i ==> a@[j] == b@[j],
        decreases na - i,
    {
        if a.get_char(i) != b.get_char(i) {
            return false;
        }
        i += 1;
    }
    proof {
        assert(a@ =~= b@);
    }
    true
}

} // verus!
