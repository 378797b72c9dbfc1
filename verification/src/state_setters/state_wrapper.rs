use vstd::prelude::*;
use crate::scalar::Scalar;

verus! {

/// One car slot of a reset state: the identity the slot will carry
/// through the episode and the physical quantities a state setter may
/// choose for it. A deployment's backend derives the car's full physical
/// state from this seed.
#[derive(Clone, Copy, PartialEq, Eq, Debug)]
pub struct CarWrapper {
    pub id: i32,
    pub team_num: i32,
    pub boost: Scalar,
}

/// The state a state setter builds for the simulation backend to adopt on
/// episode reset. The core never reads its contents; its one structural
/// obligation is that it carries exactly one car slot per agent the match
/// configuration calls for, which is what the backend's roster is forced
/// to.
pub struct StateWrapper {
    pub cars: Vec<CarWrapper>,
}

} // verus!
