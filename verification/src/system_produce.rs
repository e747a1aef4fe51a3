//! The produce system: settles an entity's resources up to the time in its arguments.
use vstd::prelude::*;

use crate::bytes::{i64_at, read_i64_at};
use crate::components::{settle_resources, settle_resources_fits, settled_resources, Resources};

verus! {

/// Why the produce system refuses.
#[derive(Clone, Copy, Debug, PartialEq, Eq, Structural)]
pub enum ProduceError {
    Unauthorized,
    InvalidArgs,
}

/// Settles `resources` up to the time held (little-endian) in the first eight argument bytes;
/// refused when there are fewer.
pub fn execute(resources: &mut Resources, args: &[u8]) -> (r: Result<(), ProduceError>)
    requires
        args.len() >= 8 ==> settle_resources_fits(*old(resources), i64_at(args@, 0)),
    ensures
        args.len() < 8 ==> r == Err::<(), ProduceError>(ProduceError::InvalidArgs) && *final(resources) == *old(resources),
        args.len() >= 8 ==> r == Ok::<(), ProduceError>(()) && *final(resources) == settled_resources(*old(resources), i64_at(args@, 0)),
{
    if args.len() < 8 {
        return Err(ProduceError::InvalidArgs);
    }
    let now = read_i64_at(args, 0);
    settle_resources(resources, now);
    Ok(())
}

} // verus!
