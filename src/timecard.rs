use vstd::prelude::*;
use crate::date::Date;

verus! {

/// A record of the hours worked on one day, in hundredths of an hour.
#[derive(Clone, Copy, Debug, PartialEq, Eq, Structural)]
pub struct TimeCard {
    hours: u32,
    date: Date,
}

impl TimeCard {
    pub closed spec fn spec_hours(&self) -> nat {
        self.hours as nat
    }

    pub closed spec fn spec_date(&self) -> Date {
        self.date
    }

    /// The card for `hours` worked on `date`.
    pub closed spec fn spec_new(date: Date, hours: u32) -> TimeCard {
        TimeCard { hours, date }
    }

    /// The card made for a date and a number of hours holds exactly those.
    pub broadcast proof fn lemma_spec_new(date: Date, hours: u32)
        ensures
            #![trigger TimeCard::spec_new(date, hours)]
            TimeCard::spec_new(date, hours).spec_date() == date,
            TimeCard::spec_new(date, hours).spec_hours() == hours,
    {
    }

    pub fn new(date: Date, hours: u32) -> (r: TimeCard)
        ensures
            r == TimeCard::spec_new(date, hours),
            r.spec_date() == date,
            r.spec_hours() == hours,
    {
        TimeCard { hours, date }
    }

    /// Hours worked, in hundredths of an hour.
    pub fn get_hours(&self) -> (r: u32)
        ensures
            r == self.spec_hours(),
    {
        self.hours
    }

    pub fn get_date(&self) -> (r: Date)
        ensures
            r == self.spec_date(),
    {
        self.date
    }
}

} // verus!
