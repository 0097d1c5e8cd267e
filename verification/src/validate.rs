use vstd::prelude::*;

use crate::error::Error;

verus! {

/// The lower bound of the manufacturer-recommended resistor range, in ohms.
pub const RECOMMENDED_RFS_MIN: u32 = 40_000;

/// The upper bound of the manufacturer-recommended resistor range, in ohms.
pub const RECOMMENDED_RFS_MAX: u32 = 160_000;

/// The policy a per-channel resistor value is validated against. A deployment
/// picks one policy and constructs every session with it.
#[derive(Debug, Clone, Copy, PartialEq, Eq)]
pub enum RfsPolicy {
    /// The value must lie within the manufacturer-recommended range from
    /// [`RECOMMENDED_RFS_MIN`] to [`RECOMMENDED_RFS_MAX`], both inclusive.
    Recommended,
    /// The value need only be nonzero.
    NonZero,
}

/// Whether a resistor value satisfies a policy.
pub open spec fn rfs_valid(policy: RfsPolicy, rfs_ohm: u32) -> bool {
    match policy {
        RfsPolicy::Recommended => RECOMMENDED_RFS_MIN <= rfs_ohm && rfs_ohm <= RECOMMENDED_RFS_MAX,
        RfsPolicy::NonZero => rfs_ohm != 0,
    }
}

/// Whether an optional resistor value satisfies a policy: an absent value is
/// always acceptable, the channel then simply cannot do current-based work.
pub open spec fn rfs_opt_valid(policy: RfsPolicy, rfs_ohm: Option<u32>) -> bool {
    match rfs_ohm {
        None => true,
        Some(v) => rfs_valid(policy, v),
    }
}

/// Validates an optional per-channel resistor value against a policy,
/// rejecting an unacceptable value with `InvalidRfs`.
pub fn validate_rfs<E>(policy: RfsPolicy, rfs_ohm: Option<u32>) -> (r: Result<(), Error<E>>)
    ensures
        r is Ok <==> rfs_opt_valid(policy, rfs_ohm),
        r is Err ==> r == Err::<(), Error<E>>(Error::InvalidRfs),
{
    match rfs_ohm {
        None => Ok(()),
        Some(v) => match policy {
            RfsPolicy::Recommended => {
                if v < RECOMMENDED_RFS_MIN || v > RECOMMENDED_RFS_MAX {
                    Err(Error::InvalidRfs)
                } else {
                    Ok(())
                }
            }
            RfsPolicy::NonZero => {
                if v == 0 {
                    Err(Error::InvalidRfs)
                } else {
                    Ok(())
                }
            }
        },
    }
}

} // verus!
