use payroll::{
    AddSalariedEmployee, Employee, HoldMethod, HourlyClassification, MonthlySchedule,
    PaymentClassification, PaymentMethod, PaymentSchedule, PayrollDatabase, SalariedClassification,
};

fn bob() -> Employee {
    Employee::new(
        "Bob",
        "Home",
        PaymentClassification::Salaried(SalariedClassification::new(100_000)),
        PaymentSchedule::Monthly(MonthlySchedule::new()),
        PaymentMethod::Hold(HoldMethod::new()),
    )
}

#[test]
fn new_store_holds_nothing() {
    let mut db = PayrollDatabase::new();
    assert!(!db.is_initialized());
    assert!(!db.contains_employee(3));
    db.init();
    assert!(db.is_initialized());
    assert!(!db.contains_employee(3));
    db.add_employee(4, bob());
    assert!(!db.contains_employee(3));
    assert!(db.contains_employee(4));
}

#[test]
fn init_keeps_records() {
    let mut db = PayrollDatabase::new();
    db.init();
    db.init();
    db.add_employee(3, bob());
    db.init();
    assert!(db.contains_employee(3));
    let e = db.get_employee(3);
    assert_eq!(e.get_name(), "Bob");
    assert_eq!(e.get_classification().get_amount(), 100_000);
}

#[test]
fn transaction_initializes_store() {
    let mut db = PayrollDatabase::new();
    let t = AddSalariedEmployee::new(2, "Bob", "Home", 100_000, PaymentSchedule::Monthly(MonthlySchedule::new()));
    t.execute(&mut db).unwrap();
    assert!(db.is_initialized());
    assert!(db.contains_employee(2));
    assert!(!db.contains_employee(1));
}

#[test]
fn add_employee_replaces_record() {
    let mut db = PayrollDatabase::new();
    db.init();
    db.add_employee(1, bob());
    let bill = Employee::new(
        "Bill",
        "Away",
        PaymentClassification::Hourly(HourlyClassification::new(1525)),
        PaymentSchedule::Monthly(MonthlySchedule::new()),
        PaymentMethod::Hold(HoldMethod::new()),
    );
    db.add_employee(1, bill);
    let e = db.get_employee(1);
    assert_eq!(e.get_name(), "Bill");
    assert_eq!(e.get_address(), "Away");
    assert_eq!(e.get_classification().get_amount(), 1525);
}
