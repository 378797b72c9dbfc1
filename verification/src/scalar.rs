use vstd::prelude::*;

verus! {

/// A real-valued quantity routed between the strategy components and the
/// simulation backend: an observation entry, a reward, one controller
/// degree of freedom, or a simulator tuning parameter.
///
/// The orchestration core never interprets these values numerically — it
/// only moves them, counts them, and zeroes them — so the quantity is
/// carried as the raw bit pattern of its 32-bit representation. The
/// all-zero pattern encodes the numeric value zero, and the producer and
/// the consumer of a value agree on the encoding of the rest.
#[derive(Clone, Copy, PartialEq, Eq, Debug)]
pub struct Scalar {
    pub bits: u32,
}

/// Bit pattern encoding the numeric value one, used for the default
/// simulator tuning parameters.
pub const UNIT_BITS: u32 = 0x3f80_0000;

/// The rows of `v`, each as its mathematical sequence: the view of a
/// sequence of observation or action vectors.
pub open spec fn rows_of(v: Seq<Vec<Scalar>>) -> Seq<Seq<Scalar>> {
    v.map_values(|a: Vec<Scalar>| a@)
}

impl Scalar {
    /// The encoding of the numeric value zero.
    pub fn zero() -> (r: Scalar)
        ensures
            r == (Scalar { bits: 0u32 }),
    {
        Scalar { bits: 0 }
    }

    /// The encoding of the numeric value one.
    pub fn one() -> (r: Scalar)
        ensures
            r == (Scalar { bits: UNIT_BITS }),
    {
        Scalar { bits: UNIT_BITS }
    }
}

} // verus!
