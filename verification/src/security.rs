//! The zero-knowledge level claimed by a SHROUD object.
use vstd::prelude::*;

verus! {

/// The zero-knowledge level claimed by a SHROUD object.
#[derive(Clone, Copy, Debug, PartialEq, Eq, Structural)]
pub enum SecurityLevel {
    /// The construction is only statistical honest-verifier zero-knowledge.
    Statistical,
    /// The construction targets perfect honest-verifier zero-knowledge.
    Perfect,
}

/// One-byte discriminant used by every canonical encoding of a security
/// level: `0` for statistical, `1` for perfect.
pub open spec fn security_level_byte(level: SecurityLevel) -> u8 {
    match level {
        SecurityLevel::Statistical => 0,
        SecurityLevel::Perfect => 1,
    }
}

/// Returns the one-byte discriminant of a security level.
pub fn security_level_discriminant(level: SecurityLevel) -> (b: u8)
    ensures
        b == security_level_byte(level),
{
    match level {
        SecurityLevel::Statistical => 0,
        SecurityLevel::Perfect => 1,
    }
}

} // verus!
