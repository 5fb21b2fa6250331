use payroll::{
    AddHourlyEmployee, AddSalariedEmployee, BiWeeklySchedule, Date, HoldMethod, MonthlySchedule,
    PaymentClassification, PaymentMethod, PaymentSchedule, PayrollDatabase, SalariedClassification,
    TimeCardTransaction, TransactionError, WeeklySchedule,
};

fn add_salaried_employee(db: &mut PayrollDatabase, id: u32, schedule: PaymentSchedule) {
    let t = AddSalariedEmployee::new(id, "Bob", "Home", 100_000, schedule);
    assert!(t.execute(db).is_ok(), "Could not add a salaried employee!");
}

#[test]
fn create_employee() {
    let mut db = PayrollDatabase::new();
    let emp_id = 1;
    let t = AddSalariedEmployee::new(
        emp_id,
        "Bob",
        "Home",
        100_000,
        PaymentSchedule::Monthly(MonthlySchedule::new()),
    );
    assert!(t.execute(&mut db).is_ok(), "Could not add a salaried employee!");
    let employee = db.get_employee(emp_id);
    assert_eq!("Bob", employee.get_name());
}

#[test]
fn employee_has_correct_stats() {
    let mut db = PayrollDatabase::new();
    let emp_id = 0;
    add_salaried_employee(&mut db, emp_id, PaymentSchedule::Monthly(MonthlySchedule::new()));
    let employee = db.get_employee(emp_id);
    assert_eq!("Bob", employee.get_name());
    assert_eq!("Home", employee.get_address());
    let classification = employee.get_classification();
    assert!(classification.as_salaried().is_some());
    let sc = classification.as_salaried().unwrap();
    assert_eq!(sc.get_salary(), 100_000);
    assert!(employee.get_method().as_hold().is_some());
}

#[test]
fn monthly_employee_is_created() {
    let mut db = PayrollDatabase::new();
    let emp_id = 1;
    add_salaried_employee(&mut db, emp_id, PaymentSchedule::Monthly(MonthlySchedule::new()));
    let employee = db.get_employee(emp_id);
    assert_eq!(String::from("every four weeks"), employee.get_schedule().when_do_i_get_paid());
}

#[test]
fn biweekly_employee_is_created() {
    let mut db = PayrollDatabase::new();
    let emp_id = 2;
    add_salaried_employee(&mut db, emp_id, PaymentSchedule::BiWeekly(BiWeeklySchedule::new()));
    let employee = db.get_employee(emp_id);
    assert_eq!(String::from("every two weeks"), employee.get_schedule().when_do_i_get_paid());
}

#[test]
fn weekly_employee_is_created() {
    let mut db = PayrollDatabase::new();
    let emp_id = 3;
    add_salaried_employee(&mut db, emp_id, PaymentSchedule::Weekly(WeeklySchedule::new()));
    let employee = db.get_employee(emp_id);
    assert_eq!(String::from("every week"), employee.get_schedule().when_do_i_get_paid());
}

#[test]
fn time_card_transaction() {
    let mut db = PayrollDatabase::new();
    let emp_id = 1;
    let schedule = PaymentSchedule::Weekly(WeeklySchedule::new());
    let add_transaction = AddHourlyEmployee::new(emp_id, "Bill", "Home", 1525, schedule);
    assert!(add_transaction.execute(&mut db).is_ok(), "Could not add hourle employee!");

    let tct = TimeCardTransaction::new(Date::new(2001, 10, 31).unwrap(), 800, emp_id);
    assert!(tct.execute(&mut db).is_ok());

    let employee = db.get_employee(emp_id);
    let classification = employee.get_classification();
    assert!(classification.as_hourly().is_some());
    let hc = classification.as_hourly().unwrap();

    let d = Date::new(2001, 10, 31).unwrap();
    let time_card = hc.get_time_card(&d);
    assert_eq!(800, time_card.unwrap().get_hours());
}

#[test]
fn time_card_on_salaried_employee_is_refused() {
    let mut db = PayrollDatabase::new();
    add_salaried_employee(&mut db, 4, PaymentSchedule::Monthly(MonthlySchedule::new()));
    let tct = TimeCardTransaction::new(Date::new(2001, 10, 31).unwrap(), 800, 4);
    assert_eq!(tct.execute(&mut db), Err(TransactionError::NonHourlyEmployee));
    assert_eq!(
        TransactionError::NonHourlyEmployee.message(),
        "Tried to add timecard to non-hourly employee"
    );
    let employee = db.get_employee(4);
    let sc = employee.get_classification().as_salaried().unwrap();
    assert_eq!(sc.get_salary(), 100_000);
    assert!(employee.get_classification().as_hourly().is_none());
    assert_eq!("Bob", employee.get_name());
}

#[test]
fn time_cards_accumulate_in_order() {
    let mut db = PayrollDatabase::new();
    let t = AddHourlyEmployee::new(5, "Bill", "Home", 1525, PaymentSchedule::Weekly(WeeklySchedule::new()));
    t.execute(&mut db).unwrap();
    let first = Date::new(2001, 10, 30).unwrap();
    let second = Date::new(2001, 10, 31).unwrap();
    assert!(db.get_employee(5).get_classification().as_hourly().unwrap().get_time_card(&first).is_none());
    TimeCardTransaction::new(first, 750, 5).execute(&mut db).unwrap();
    TimeCardTransaction::new(second, 800, 5).execute(&mut db).unwrap();
    let hc = db.get_employee(5).get_classification().as_hourly().unwrap();
    assert_eq!(hc.time_card_count(), 2);
    let card = hc.get_time_card(&second).unwrap();
    assert_eq!(card.get_hours(), 750);
    assert_eq!(card.get_date(), first);
    assert_eq!(hc.get_salary(), 1525);
    assert_eq!(db.get_employee(5).get_classification().get_amount(), 1525);
}

#[test]
fn re_adding_overwrites_every_field() {
    let mut db = PayrollDatabase::new();
    add_salaried_employee(&mut db, 6, PaymentSchedule::Monthly(MonthlySchedule::new()));
    let t = AddHourlyEmployee::new(6, "Bill", "Away", 1525, PaymentSchedule::BiWeekly(BiWeeklySchedule::new()));
    t.execute(&mut db).unwrap();
    let employee = db.get_employee(6);
    assert_eq!(employee.get_name(), "Bill");
    assert_eq!(employee.get_address(), "Away");
    assert!(employee.get_classification().as_salaried().is_none());
    assert_eq!(employee.get_classification().as_hourly().unwrap().get_salary(), 1525);
    assert_eq!(employee.get_schedule(), PaymentSchedule::BiWeekly(BiWeeklySchedule::new()));
    assert_eq!(employee.get_method(), PaymentMethod::Hold(HoldMethod::new()));
}

#[test]
fn builders_of_add_transactions() {
    let t = AddSalariedEmployee::new(8, "Bob", "Home", 100_000, PaymentSchedule::Monthly(MonthlySchedule::new()));
    assert_eq!(t.employee_id(), 8);
    assert_eq!(t.employee_name(), "Bob");
    assert_eq!(t.employee_address(), "Home");
    assert_eq!(t.employee_salary(), 100_000);
    assert_eq!(t.get_schedule(), PaymentSchedule::Monthly(MonthlySchedule::new()));
    assert_eq!(t.get_classification().get_amount(), 100_000);
    assert_eq!(t.get_payment_method(), PaymentMethod::Hold(HoldMethod::new()));
    let h = AddHourlyEmployee::new(9, "Bill", "Home", 1525, PaymentSchedule::Weekly(WeeklySchedule::new()));
    assert_eq!(h.employee_id(), 9);
    assert_eq!(h.employee_name(), "Bill");
    assert_eq!(h.employee_address(), "Home");
    assert_eq!(h.employee_salary(), 1525);
    assert_eq!(h.get_schedule(), PaymentSchedule::Weekly(WeeklySchedule::new()));
    match h.get_classification() {
        PaymentClassification::Hourly(hc) => assert_eq!(hc.time_card_count(), 0),
        PaymentClassification::Salaried(_) => panic!("expected an hourly classification"),
    }
    assert_eq!(SalariedClassification::new(42).get_salary(), 42);
}
