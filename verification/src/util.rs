//! Fingerprints for change detection: a 64-bit digest of a document's
//! serialized text, compared at save time against the digest recorded at
//! load time.

use std::collections::hash_map::DefaultHasher;
use std::hash::Hash;
use std::hash::Hasher;
use vstd::prelude::*;
use vstd::std_specs::hash::DefaultHasherAdditionalSpecFns;
use vstd::utf8::encode_utf8;

verus! {

/// The digest of a string: what a fresh `DefaultHasher` yields after one
/// write of the string's UTF-8 bytes.
pub open spec fn hash_of(s: Seq<char>) -> u64 {
    DefaultHasher::spec_finish(seq![encode_utf8(s)])
}

/// The digest of any hashable value.
///
/// Relies on std's `DefaultHasher`: `DefaultHasher::new`, `Hash::hash` and
/// `Hasher::finish`. Nothing is promised of the digest; the library's own
/// change detection goes through [`fingerprint`] instead.
#[verifier::external_body]
pub fn calculate_hash<T: Hash>(t: &T) -> u64 {
    let mut s = DefaultHasher::new();
    t.hash(&mut s);
    s.finish()
}

/// The digest of a string, [`hash_of`] its characters.
pub(crate) fn fingerprint(s: &String) -> (r: u64)
    ensures
        r == hash_of(s@),
{
    let mut h = DefaultHasher::new();
    h.write(s.as_str().as_bytes());
    proof {
        assert(h@ =~= seq![encode_utf8(s@)]);
    }
    h.finish()
}

} // verus!
