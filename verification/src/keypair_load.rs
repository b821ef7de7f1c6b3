use vstd::prelude::*;
use crate::response::Failure;

verus! {

/// How far loading the issuer's key pair from its file got.
pub enum KeyLoad {
    /// The key file could not be opened.
    OpenFailed,
    /// The key file could not be read as text.
    ReadFailed,
    /// The text is no key pair.
    ParseFailed,
    /// The key pair is ready for signing.
    Loaded,
}

/// The failure a request is refused with when the key pair did not load, or
/// `None` when it did.
pub fn key_load_failure(load: KeyLoad) -> (r: Option<Failure>)
    ensures
        r == (match load {
            KeyLoad::OpenFailed => Some(Failure::FileError),
            KeyLoad::ReadFailed => Some(Failure::StrConverError),
            KeyLoad::ParseFailed => Some(Failure::StrConverError),
            KeyLoad::Loaded => None,
        }),
{
    match load {
        KeyLoad::OpenFailed => Some(Failure::FileError),
        KeyLoad::ReadFailed => Some(Failure::StrConverError),
        KeyLoad::ParseFailed => Some(Failure::StrConverError),
        KeyLoad::Loaded => None,
    }
}

} // verus!
