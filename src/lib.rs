//! A payroll record store that is changed only through transactions.
//!
//! Employees carry three policies: how their pay is classified, how often
//! they are paid and how the payment reaches them.  Amounts of money are held
//! in cents and hours worked in hundredths of an hour.

pub mod classification;
pub mod database;
pub mod date;
pub mod employee;
pub mod method;
pub mod schedule;
pub mod timecard;
pub mod transaction;

pub use classification::{HourlyClassification, PaymentClassification, SalariedClassification};
pub use database::PayrollDatabase;
pub use date::Date;
pub use employee::Employee;
pub use method::{HoldMethod, PaymentMethod};
pub use schedule::{BiWeeklySchedule, MonthlySchedule, PaymentSchedule, WeeklySchedule};
pub use timecard::TimeCard;
pub use transaction::{
    AddHourlyEmployee, AddSalariedEmployee, EmployeeId, TimeCardTransaction, TransactionError,
};
