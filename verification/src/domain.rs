use vstd::prelude::*;

verus! {

/// Why an untrusted form value was refused by a validating factory.
///
/// `EmptyOrBlank`, `TooLong` and `ForbiddenCharacter` concern subscriber
/// names; `InvalidEmail` concerns subscriber email addresses.
#[derive(Clone, Copy, Debug, PartialEq, Eq, Structural)]
pub enum ValidationError {
    EmptyOrBlank,
    TooLong,
    ForbiddenCharacter,
    InvalidEmail,
}

} // verus!
