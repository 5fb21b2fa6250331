use vstd::prelude::*;

verus! {

/// Payment is held for the employee to collect.
#[derive(Clone, Copy, Debug, PartialEq, Eq, Structural)]
pub struct HoldMethod {}

impl HoldMethod {
    pub fn new() -> (r: HoldMethod)
        ensures
            r == (HoldMethod {}),
    {
        HoldMethod {}
    }
}

/// How a payment reaches the employee.
#[derive(Clone, Copy, Debug, PartialEq, Eq, Structural)]
pub enum PaymentMethod {
    Hold(HoldMethod),
}

impl PaymentMethod {
    /// The hold method, where this is one.
    pub fn as_hold(&self) -> (r: Option<&HoldMethod>)
        ensures
            r is Some <==> self is Hold,
            self is Hold ==> *r->Some_0 == self->Hold_0,
    {
        match self {
            PaymentMethod::Hold(h) => Some(h),
        }
    }
}

} // verus!
