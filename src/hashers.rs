use vstd::prelude::*;

verus! {

/// The digest algorithms a run may be configured with.
#[derive(Clone, Copy, Debug, PartialEq, Eq)]
pub enum HashType {
    Meow,
    Blake2,
    Blake3,
    Md5,
    Sha1,
    Sha256,
    Sha512,
}

} // verus!
