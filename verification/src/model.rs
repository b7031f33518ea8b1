//! The simplest position model: every object keeps its velocity.

use vstd::prelude::*;

use crate::clock::Timestamp;
use crate::registry::ModelError;
use crate::registry::Motion;
use crate::registry::Position;
use crate::registry::PositionModel;
use crate::registry::TrackedObject;
use crate::registry::TrackedObjectView;

verus! {

/// A model that moves each object along its velocity for the whole seconds
/// between the object's last update and the instant asked for.
#[derive(Clone, Copy, Debug)]
pub struct LinearMotion;

/// Whether a coordinate fits the range of a position.
pub open spec fn fits_coordinate(value: int) -> bool {
    i64::MIN <= value <= i64::MAX
}

/// One coordinate after `elapsed` seconds at `rate` metres per second.
pub open spec fn advanced(from: i64, rate: i64, elapsed: int) -> int {
    from + rate * elapsed
}

/// Where `LinearMotion` puts an object at `at`.
///
/// An object without a velocity cannot be moved; one that would leave the
/// coordinate range is out of range. The velocity stays as it is.
pub open spec fn linear_motion(object: TrackedObjectView, at: Timestamp) -> Result<
    Motion,
    ModelError,
> {
    match object.velocity {
        None => Err(ModelError::MissingState),
        Some(velocity) => {
            let elapsed = at.secs - object.last_updated.secs;
            let x = advanced(object.position.x, velocity.x, elapsed);
            let y = advanced(object.position.y, velocity.y, elapsed);
            let z = advanced(object.position.z, velocity.z, elapsed);
            if fits_coordinate(x) && fits_coordinate(y) && fits_coordinate(z) {
                Ok(
                    Motion {
                        position: Position { x: x as i64, y: y as i64, z: z as i64 },
                        velocity: Some(velocity),
                    },
                )
            } else {
                Err(ModelError::OutOfRange)
            }
        },
    }
}

/// The product of a rate and a number of seconds no larger than the spread
/// of two instants stays within what the wide arithmetic below can hold,
/// with room left to add a coordinate.
proof fn lemma_product_in_range(rate: int, elapsed: int)
    requires
        -0x8000_0000_0000_0000 <= rate <= 0x7fff_ffff_ffff_ffff,
        -0xffff_ffff_ffff_ffff <= elapsed <= 0xffff_ffff_ffff_ffff,
    ensures
        -0x7fff_ffff_ffff_ffff_8000_0000_0000_0000 <= rate * elapsed
            <= 0x7fff_ffff_ffff_ffff_8000_0000_0000_0000,
{
    assert(-0x7fff_ffff_ffff_ffff_8000_0000_0000_0000 <= rate * elapsed
        <= 0x7fff_ffff_ffff_ffff_8000_0000_0000_0000) by (nonlinear_arith)
        requires
            -0x8000_0000_0000_0000 <= rate <= 0x7fff_ffff_ffff_ffff,
            -0xffff_ffff_ffff_ffff <= elapsed <= 0xffff_ffff_ffff_ffff,
    ;
}

/// One coordinate after `elapsed` seconds, where it fits.
fn advance(from: i64, rate: i64, elapsed: i128) -> (to: Option<i64>)
    requires
        -0xffff_ffff_ffff_ffff <= elapsed <= 0xffff_ffff_ffff_ffff,
    ensures
        to == if fits_coordinate(advanced(from, rate, elapsed as int)) {
            Some(advanced(from, rate, elapsed as int) as i64)
        } else {
            None
        },
{
    proof {
        lemma_product_in_range(rate as int, elapsed as int);
    }
    let wide: i128 = from as i128 + rate as i128 * elapsed;
    if wide < i64::MIN as i128 || wide > i64::MAX as i128 {
        None
    } else {
        Some(wide as i64)
    }
}

impl PositionModel for LinearMotion {
    fn propagate(&self, object: &TrackedObject, at: Timestamp) -> (outcome: Result<
        Motion,
        ModelError,
    >)
        ensures
            outcome == linear_motion(object@, at),
    {
        match object.velocity {
            None => Err(ModelError::MissingState),
            Some(velocity) => {
                let elapsed: i128 = at.secs as i128 - object.last_updated.secs as i128;
                let x = advance(object.position.x, velocity.x, elapsed);
                let y = advance(object.position.y, velocity.y, elapsed);
                let z = advance(object.position.z, velocity.z, elapsed);
                match (x, y, z) {
                    (Some(x), Some(y), Some(z)) => Ok(
                        Motion { position: Position { x, y, z }, velocity: Some(velocity) },
                    ),
                    _ => Err(ModelError::OutOfRange),
                }
            },
        }
    }
}

} // verus!
