use vstd::prelude::*;
use crate::classification::{HourlyClassification, PaymentClassification, SalariedClassification};
use crate::database::{after_add, after_init, holds, record, PayrollDatabase};
use crate::date::Date;
use crate::employee::Employee;
use crate::method::{HoldMethod, PaymentMethod};
use crate::schedule::PaymentSchedule;
use crate::timecard::TimeCard;

verus! {

/// An employee's key in the store, assigned by the application.
pub type EmployeeId = u32;

/// Why a transaction was refused.
#[derive(Clone, Copy, Debug, PartialEq, Eq, Structural)]
pub enum TransactionError {
    /// A time card was meant for an employee who is not paid by the hour.
    NonHourlyEmployee,
}

impl TransactionError {
    /// A description of the error for people.
    pub fn message(&self) -> (r: String)
        ensures
            r@ == "Tried to add timecard to non-hourly employee"@,
    {
        "Tried to add timecard to non-hourly employee".to_owned()
    }
}

/// The step that every employee-adding transaction shares: initialize the
/// store, then store the new record at its id.
fn store_new_employee(db: &mut PayrollDatabase, empid: EmployeeId, employee: Employee) -> (r:
    Result<(), TransactionError>)
    ensures
        r is Ok,
        final(db)@ == after_add(after_init(old(db)@), empid, employee),
{
    db.init();
    db.add_employee(empid, employee);
    Ok(())
}

/// Adds an employee paid a fixed salary (in cents), whose payment is held.
pub struct AddSalariedEmployee {
    its_empid: EmployeeId,
    its_address: String,
    its_name: String,
    its_salary: u64,
    its_schedule: PaymentSchedule,
}

impl AddSalariedEmployee {
    pub closed spec fn spec_id(&self) -> EmployeeId {
        self.its_empid
    }

    pub closed spec fn spec_name(&self) -> Seq<char> {
        self.its_name@
    }

    pub closed spec fn spec_address(&self) -> Seq<char> {
        self.its_address@
    }

    pub closed spec fn spec_salary(&self) -> nat {
        self.its_salary as nat
    }

    pub closed spec fn spec_schedule(&self) -> PaymentSchedule {
        self.its_schedule
    }

    /// `e` is the record that this transaction stores.
    pub open spec fn describes(&self, e: Employee) -> bool {
        &&& e.spec_name() == self.spec_name()
        &&& e.spec_address() == self.spec_address()
        &&& e.spec_classification().is_salaried_at(self.spec_salary())
        &&& e.spec_schedule() == self.spec_schedule()
        &&& e.spec_method() == PaymentMethod::Hold(HoldMethod {})
    }

    pub fn new(
        empid: EmployeeId,
        name: &str,
        address: &str,
        salary: u64,
        schedule: PaymentSchedule,
    ) -> (r: AddSalariedEmployee)
        ensures
            r.spec_id() == empid,
            r.spec_name() == name@,
            r.spec_address() == address@,
            r.spec_salary() == salary,
            r.spec_schedule() == schedule,
    {
        AddSalariedEmployee {
            its_empid: empid,
            its_name: name.to_owned(),
            its_address: address.to_owned(),
            its_salary: salary,
            its_schedule: schedule,
        }
    }

    pub fn employee_id(&self) -> (r: EmployeeId)
        ensures
            r == self.spec_id(),
    {
        self.its_empid
    }

    pub fn employee_name(&self) -> (r: String)
        ensures
            r@ == self.spec_name(),
    {
        self.its_name.clone()
    }

    pub fn employee_address(&self) -> (r: String)
        ensures
            r@ == self.spec_address(),
    {
        self.its_address.clone()
    }

    /// The salary, in cents.
    pub fn employee_salary(&self) -> (r: u64)
        ensures
            r == self.spec_salary(),
    {
        self.its_salary
    }

    pub fn get_schedule(&self) -> (r: PaymentSchedule)
        ensures
            r == self.spec_schedule(),
    {
        self.its_schedule
    }

    /// A salaried classification at this transaction's salary.
    pub fn get_classification(&self) -> (r: PaymentClassification)
        ensures
            r.is_salaried_at(self.spec_salary()),
    {
        PaymentClassification::Salaried(SalariedClassification::new(self.employee_salary()))
    }

    pub fn get_payment_method(&self) -> (r: PaymentMethod)
        ensures
            r == PaymentMethod::Hold(HoldMethod {}),
    {
        PaymentMethod::Hold(HoldMethod::new())
    }

    /// Initializes the store if need be and stores the new employee at this
    /// transaction's id, replacing any record held there.
    pub fn execute(&self, db: &mut PayrollDatabase) -> (r: Result<(), TransactionError>)
        ensures
            r is Ok,
            holds(final(db)@, self.spec_id()),
            final(db)@ == after_add(
                after_init(old(db)@),
                self.spec_id(),
                record(final(db)@, self.spec_id()),
            ),
            self.describes(record(final(db)@, self.spec_id())),
    {
        let employee = Employee::new(
            self.its_name.as_str(),
            self.its_address.as_str(),
            self.get_classification(),
            self.get_schedule(),
            self.get_payment_method(),
        );
        store_new_employee(db, self.employee_id(), employee)
    }
}

/// Adds an employee paid by the hour, at a rate in cents, with no time cards
/// yet and payment held.
pub struct AddHourlyEmployee {
    its_empid: EmployeeId,
    its_address: String,
    its_name: String,
    its_hourly_rate: u64,
    its_schedule: PaymentSchedule,
}

impl AddHourlyEmployee {
    pub closed spec fn spec_id(&self) -> EmployeeId {
        self.its_empid
    }

    pub closed spec fn spec_name(&self) -> Seq<char> {
        self.its_name@
    }

    pub closed spec fn spec_address(&self) -> Seq<char> {
        self.its_address@
    }

    pub closed spec fn spec_rate(&self) -> nat {
        self.its_hourly_rate as nat
    }

    pub closed spec fn spec_schedule(&self) -> PaymentSchedule {
        self.its_schedule
    }

    /// `e` is the record that this transaction stores.
    pub open spec fn describes(&self, e: Employee) -> bool {
        &&& e.spec_name() == self.spec_name()
        &&& e.spec_address() == self.spec_address()
        &&& e.spec_classification().is_hourly_at(self.spec_rate(), Seq::<TimeCard>::empty())
        &&& e.spec_schedule() == self.spec_schedule()
        &&& e.spec_method() == PaymentMethod::Hold(HoldMethod {})
    }

    pub fn new(
        empid: EmployeeId,
        name: &str,
        address: &str,
        salary: u64,
        schedule: PaymentSchedule,
    ) -> (r: AddHourlyEmployee)
        ensures
            r.spec_id() == empid,
            r.spec_name() == name@,
            r.spec_address() == address@,
            r.spec_rate() == salary,
            r.spec_schedule() == schedule,
    {
        AddHourlyEmployee {
            its_empid: empid,
            its_name: name.to_owned(),
            its_address: address.to_owned(),
            its_hourly_rate: salary,
            its_schedule: schedule,
        }
    }

    pub fn employee_id(&self) -> (r: EmployeeId)
        ensures
            r == self.spec_id(),
    {
        self.its_empid
    }

    pub fn employee_name(&self) -> (r: String)
        ensures
            r@ == self.spec_name(),
    {
        self.its_name.clone()
    }

    pub fn employee_address(&self) -> (r: String)
        ensures
            r@ == self.spec_address(),
    {
        self.its_address.clone()
    }

    /// The hourly rate, in cents.
    pub fn employee_salary(&self) -> (r: u64)
        ensures
            r == self.spec_rate(),
    {
        self.its_hourly_rate
    }

    pub fn get_schedule(&self) -> (r: PaymentSchedule)
        ensures
            r == self.spec_schedule(),
    {
        self.its_schedule
    }

    /// An hourly classification at this transaction's rate, with no time
    /// cards.
    pub fn get_classification(&self) -> (r: PaymentClassification)
        ensures
            r.is_hourly_at(self.spec_rate(), Seq::<TimeCard>::empty()),
    {
        PaymentClassification::Hourly(HourlyClassification::new(self.employee_salary()))
    }

    pub fn get_payment_method(&self) -> (r: PaymentMethod)
        ensures
            r == PaymentMethod::Hold(HoldMethod {}),
    {
        PaymentMethod::Hold(HoldMethod::new())
    }

    /// Initializes the store if need be and stores the new employee at this
    /// transaction's id, replacing any record held there.
    pub fn execute(&self, db: &mut PayrollDatabase) -> (r: Result<(), TransactionError>)
        ensures
            r is Ok,
            holds(final(db)@, self.spec_id()),
            final(db)@ == after_add(
                after_init(old(db)@),
                self.spec_id(),
                record(final(db)@, self.spec_id()),
            ),
            self.describes(record(final(db)@, self.spec_id())),
    {
        let employee = Employee::new(
            self.its_name.as_str(),
            self.its_address.as_str(),
            self.get_classification(),
            self.get_schedule(),
            self.get_payment_method(),
        );
        store_new_employee(db, self.employee_id(), employee)
    }
}

/// Records the hours that an hourly employee worked on a day.
pub struct TimeCardTransaction {
    its_date: Date,
    its_hours: u32,
    its_empid: EmployeeId,
}

impl TimeCardTransaction {
    pub closed spec fn spec_date(&self) -> Date {
        self.its_date
    }

    pub closed spec fn spec_hours(&self) -> u32 {
        self.its_hours
    }

    pub closed spec fn spec_id(&self) -> EmployeeId {
        self.its_empid
    }

    /// `hours` is in hundredths of an hour.
    pub fn new(date: Date, hours: u32, empid: EmployeeId) -> (r: TimeCardTransaction)
        ensures
            r.spec_date() == date,
            r.spec_hours() == hours,
            r.spec_id() == empid,
    {
        TimeCardTransaction { its_date: date, its_hours: hours, its_empid: empid }
    }

    /// Appends a time card to the record of an hourly employee, in place.  For
    /// an employee of any other classification it fails with
    /// `NonHourlyEmployee` and changes nothing.  The employee must be in the
    /// store.
    pub fn execute(&self, db: &mut PayrollDatabase) -> (r: Result<(), TransactionError>)
        requires
            holds(old(db)@, self.spec_id()),
        ensures
            r is Ok <==> record(old(db)@, self.spec_id()).spec_classification() is Hourly,
            r is Err ==> r == Err::<(), TransactionError>(TransactionError::NonHourlyEmployee),
            r is Err ==> final(db)@ == old(db)@,
            r is Ok ==> final(db)@ == after_add(
                old(db)@,
                self.spec_id(),
                record(final(db)@, self.spec_id()),
            ),
            r is Ok ==> Employee::gained_time_card(
                record(old(db)@, self.spec_id()),
                record(final(db)@, self.spec_id()),
                TimeCard::spec_new(self.spec_date(), self.spec_hours()),
            ),
    {
        let card = TimeCard::new(self.its_date, self.its_hours);
        if db.add_time_card(self.its_empid, card) {
            Ok(())
        } else {
            Err(TransactionError::NonHourlyEmployee)
        }
    }
}

} // verus!
