use vstd::prelude::*;
use crate::date::Date;
use crate::timecard::TimeCard;

verus! {

/// Pay by a fixed salary, in cents.
#[derive(Clone, Copy, Debug, PartialEq, Eq, Structural)]
pub struct SalariedClassification {
    value: u64,
}

impl SalariedClassification {
    pub closed spec fn spec_salary(&self) -> nat {
        self.value as nat
    }

    pub fn new(value: u64) -> (r: SalariedClassification)
        ensures
            r.spec_salary() == value,
    {
        SalariedClassification { value }
    }

    /// The salary, in cents.
    pub fn get_salary(&self) -> (r: u64)
        ensures
            r == self.spec_salary(),
    {
        self.value
    }
}

/// Pay by the hour, at a rate in cents, with the time cards recorded so far in
/// the order in which they were added.
#[derive(Debug)]
pub struct HourlyClassification {
    value: u64,
    time_cards: Vec<TimeCard>,
}

impl HourlyClassification {
    pub closed spec fn spec_rate(&self) -> nat {
        self.value as nat
    }

    pub closed spec fn spec_time_cards(&self) -> Seq<TimeCard> {
        self.time_cards@
    }

    /// An hourly classification with no time cards yet.
    pub fn new(value: u64) -> (r: HourlyClassification)
        ensures
            r.spec_rate() == value,
            r.spec_time_cards() == Seq::<TimeCard>::empty(),
    {
        HourlyClassification { value, time_cards: Vec::new() }
    }

    /// The hourly rate, in cents.
    pub fn get_salary(&self) -> (r: u64)
        ensures
            r == self.spec_rate(),
    {
        self.value
    }

    /// Records one more time card after those already held.
    pub fn add_time_card(&mut self, tc: TimeCard)
        ensures
            final(self).spec_rate() == old(self).spec_rate(),
            final(self).spec_time_cards() == old(self).spec_time_cards().push(tc),
    {
        self.time_cards.push(tc);
    }

    /// The first time card recorded, whatever the date asked for.
    pub fn get_time_card(&self, _date: &Date) -> (r: Option<TimeCard>)
        ensures
            r == (if self.spec_time_cards().len() > 0 {
                Some(self.spec_time_cards()[0])
            } else {
                None::<TimeCard>
            }),
    {
        if self.time_cards.len() > 0 {
            Some(self.time_cards[0])
        } else {
            None
        }
    }

    /// The number of time cards recorded.
    pub fn time_card_count(&self) -> (r: usize)
        ensures
            r == self.spec_time_cards().len(),
    {
        self.time_cards.len()
    }
}

/// How an employee's pay is reckoned.
#[derive(Debug)]
pub enum PaymentClassification {
    Salaried(SalariedClassification),
    Hourly(HourlyClassification),
}

impl PaymentClassification {
    /// A salaried classification with the given salary.
    pub open spec fn is_salaried_at(self, salary: nat) -> bool {
        self is Salaried && self->Salaried_0.spec_salary() == salary
    }

    /// An hourly classification with the given rate and time cards.
    pub open spec fn is_hourly_at(self, rate: nat, cards: Seq<TimeCard>) -> bool {
        self is Hourly && self->Hourly_0.spec_rate() == rate && self->Hourly_0.spec_time_cards()
            == cards
    }

    /// The salary or the hourly rate.
    pub open spec fn spec_amount(self) -> nat {
        match self {
            PaymentClassification::Salaried(s) => s.spec_salary(),
            PaymentClassification::Hourly(h) => h.spec_rate(),
        }
    }

    /// The salary or the hourly rate, in cents.
    pub fn get_amount(&self) -> (r: u64)
        ensures
            r == self.spec_amount(),
    {
        match self {
            PaymentClassification::Salaried(s) => s.get_salary(),
            PaymentClassification::Hourly(h) => h.get_salary(),
        }
    }

    /// The salaried classification, where this is one.
    pub fn as_salaried(&self) -> (r: Option<&SalariedClassification>)
        ensures
            r is Some <==> self is Salaried,
            self is Salaried ==> *r->Some_0 == self->Salaried_0,
    {
        match self {
            PaymentClassification::Salaried(s) => Some(s),
            PaymentClassification::Hourly(_) => None,
        }
    }

    /// The hourly classification, where this is one.
    pub fn as_hourly(&self) -> (r: Option<&HourlyClassification>)
        ensures
            r is Some <==> self is Hourly,
            self is Hourly ==> *r->Some_0 == self->Hourly_0,
    {
        match self {
            PaymentClassification::Salaried(_) => None,
            PaymentClassification::Hourly(h) => Some(h),
        }
    }

    /// Records a time card where the classification is hourly, and reports
    /// whether it did; any other classification is left as it is.
    pub fn add_time_card(&mut self, tc: TimeCard) -> (added: bool)
        ensures
            added == *old(self) is Hourly,
            added ==> final(self).is_hourly_at(
                (*old(self))->Hourly_0.spec_rate(),
                (*old(self))->Hourly_0.spec_time_cards().push(tc),
            ),
            !added ==> *final(self) == *old(self),
    {
        match self {
            PaymentClassification::Salaried(_) => false,
            PaymentClassification::Hourly(h) => {
                h.add_time_card(tc);
                true
            },
        }
    }
}

} // verus!
