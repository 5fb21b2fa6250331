use vstd::prelude::*;
use crate::classification::PaymentClassification;
use crate::method::PaymentMethod;
use crate::schedule::PaymentSchedule;
use crate::timecard::TimeCard;

verus! {

/// An employee: name and address, which never change, and one policy of each
/// family.  Of the policies only the classification changes, when a time card
/// is recorded.
#[derive(Debug)]
pub struct Employee {
    name: String,
    address: String,
    classification: PaymentClassification,
    schedule: PaymentSchedule,
    method: PaymentMethod,
}

impl Employee {
    pub closed spec fn spec_name(&self) -> Seq<char> {
        self.name@
    }

    pub closed spec fn spec_address(&self) -> Seq<char> {
        self.address@
    }

    pub closed spec fn spec_classification(&self) -> PaymentClassification {
        self.classification
    }

    pub closed spec fn spec_schedule(&self) -> PaymentSchedule {
        self.schedule
    }

    pub closed spec fn spec_method(&self) -> PaymentMethod {
        self.method
    }

    /// The employee holds exactly the given fields.
    pub open spec fn has_fields(
        &self,
        name: Seq<char>,
        address: Seq<char>,
        classification: PaymentClassification,
        schedule: PaymentSchedule,
        method: PaymentMethod,
    ) -> bool {
        &&& self.spec_name() == name
        &&& self.spec_address() == address
        &&& self.spec_classification() == classification
        &&& self.spec_schedule() == schedule
        &&& self.spec_method() == method
    }

    /// `after` is `before` with one more time card on its hourly
    /// classification, and nothing else changed.
    pub open spec fn gained_time_card(before: Employee, after: Employee, tc: TimeCard) -> bool {
        &&& before.spec_classification() is Hourly
        &&& after.spec_classification().is_hourly_at(
            before.spec_classification()->Hourly_0.spec_rate(),
            before.spec_classification()->Hourly_0.spec_time_cards().push(tc),
        )
        &&& after.spec_name() == before.spec_name()
        &&& after.spec_address() == before.spec_address()
        &&& after.spec_schedule() == before.spec_schedule()
        &&& after.spec_method() == before.spec_method()
    }

    pub fn new(
        name: &str,
        address: &str,
        classification: PaymentClassification,
        schedule: PaymentSchedule,
        method: PaymentMethod,
    ) -> (r: Employee)
        ensures
            r.has_fields(name@, address@, classification, schedule, method),
    {
        Employee {
            name: name.to_owned(),
            address: address.to_owned(),
            classification,
            schedule,
            method,
        }
    }

    pub fn get_name(&self) -> (r: &str)
        ensures
            r@ == self.spec_name(),
    {
        self.name.as_str()
    }

    pub fn get_address(&self) -> (r: &str)
        ensures
            r@ == self.spec_address(),
    {
        self.address.as_str()
    }

    pub fn get_classification(&self) -> (r: &PaymentClassification)
        ensures
            *r == self.spec_classification(),
    {
        &self.classification
    }

    pub fn get_schedule(&self) -> (r: PaymentSchedule)
        ensures
            r == self.spec_schedule(),
    {
        self.schedule
    }

    pub fn get_method(&self) -> (r: PaymentMethod)
        ensures
            r == self.spec_method(),
    {
        self.method
    }

    /// Records a time card on an hourly employee's own classification and
    /// reports whether it did; any other employee is left as it is.
    pub fn add_time_card(&mut self, tc: TimeCard) -> (added: bool)
        ensures
            added == old(self).spec_classification() is Hourly,
            added ==> Employee::gained_time_card(*old(self), *final(self), tc),
            !added ==> *final(self) == *old(self),
    {
        self.classification.add_time_card(tc)
    }
}

} // verus!
