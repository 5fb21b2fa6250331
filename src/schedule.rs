use vstd::prelude::*;

verus! {

/// Payment every week.
#[derive(Clone, Copy, Debug, PartialEq, Eq, Structural)]
pub struct WeeklySchedule {}

/// Payment every second week.
#[derive(Clone, Copy, Debug, PartialEq, Eq, Structural)]
pub struct BiWeeklySchedule {}

/// Payment once a month.
#[derive(Clone, Copy, Debug, PartialEq, Eq, Structural)]
pub struct MonthlySchedule {}

impl WeeklySchedule {
    pub fn new() -> (r: WeeklySchedule)
        ensures
            r == (WeeklySchedule {}),
    {
        WeeklySchedule {}
    }
}

impl BiWeeklySchedule {
    pub fn new() -> (r: BiWeeklySchedule)
        ensures
            r == (BiWeeklySchedule {}),
    {
        BiWeeklySchedule {}
    }
}

impl MonthlySchedule {
    pub fn new() -> (r: MonthlySchedule)
        ensures
            r == (MonthlySchedule {}),
    {
        MonthlySchedule {}
    }
}

/// How often an employee is paid.  Schedules hold no state, so one value may
/// serve any number of employees.
#[derive(Clone, Copy, Debug, PartialEq, Eq, Structural)]
pub enum PaymentSchedule {
    Weekly(WeeklySchedule),
    BiWeekly(BiWeeklySchedule),
    Monthly(MonthlySchedule),
}

/// The description of a schedule's cadence.  The monthly schedule keeps its
/// long-standing label of four weeks.
pub open spec fn cadence(s: PaymentSchedule) -> Seq<char> {
    match s {
        PaymentSchedule::Weekly(_) => "every week"@,
        PaymentSchedule::BiWeekly(_) => "every two weeks"@,
        PaymentSchedule::Monthly(_) => "every four weeks"@,
    }
}

impl PaymentSchedule {
    /// A readable description of how often payment comes.
    pub fn when_do_i_get_paid(&self) -> (r: String)
        ensures
            r@ == cadence(*self),
    {
        match self {
            PaymentSchedule::Weekly(_) => "every week".to_owned(),
            PaymentSchedule::BiWeekly(_) => "every two weeks".to_owned(),
            PaymentSchedule::Monthly(_) => "every four weeks".to_owned(),
        }
    }
}

} // verus!
