//! Why a session ends: an operating-system interrupt, or the operator
//! asking to quit.

use vstd::prelude::*;

verus! {

/// The reason the session is being terminated.
#[derive(Debug, Clone, Copy, PartialEq, Eq, Structural)]
pub enum Interrupted {
    OsSigInt,
    UserInt,
}

} // verus!
