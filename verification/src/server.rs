//! The server side at run time.

use vstd::prelude::*;
use crate::client::PhalanxResponse;

verus! {

/// A special responder for the unit type: the response of a handler whose
/// method returns nothing.
#[derive(Debug, PartialEq, Eq, Clone, Copy)]
pub struct UnitResponder;

impl UnitResponder {
    /// The response: status 200 with an empty body, always.
    pub fn respond_to(self) -> (res: PhalanxResponse)
        ensures
            res.status == 200,
            res.body@ == Seq::<u8>::empty(),
    {
        PhalanxResponse { status: 200, body: Vec::new() }
    }
}

} // verus!
