use vstd::prelude::*;
use std::collections::HashMap;
use crate::employee::Employee;
use crate::timecard::TimeCard;

verus! {

broadcast use vstd::std_specs::hash::group_hash_axioms;

/// What a store holds: `None` before it is initialized, else its records by
/// employee id.
pub type Records = Option<Map<u32, Employee>>;

/// The records after `init`: a store that was never initialized becomes
/// empty, any other stays as it was.
pub open spec fn after_init(v: Records) -> Records {
    match v {
        Some(m) => Some(m),
        None => Some(Map::empty()),
    }
}

/// The records after `add_employee(id, e)` on an initialized store.
pub open spec fn after_add(v: Records, id: u32, e: Employee) -> Records {
    match v {
        Some(m) => Some(m.insert(id, e)),
        None => None,
    }
}

/// Whether a lookup of `id` finds a record.
pub open spec fn holds(v: Records, id: u32) -> bool {
    v is Some && v->Some_0.contains_key(id)
}

/// The record that a lookup of `id` finds.
pub open spec fn record(v: Records, id: u32) -> Employee {
    v->Some_0[id]
}

/// A lookup finds nothing at an id until a record is added at that id: a new
/// store holds no record, and neither `init` nor an addition at another id
/// makes one appear.
pub proof fn lemma_absent_until_added(v: Records, id: u32, other: u32, e: Employee)
    requires
        !holds(v, id),
        other != id,
    ensures
        !holds(None, id),
        !holds(after_init(v), id),
        !holds(after_add(v, other, e), id),
{
}

/// `init` may run any number of times: once the store is initialized it
/// changes nothing, so a record added after one or more runs is still there,
/// unchanged, after another.
pub proof fn lemma_init_idempotent(v: Records, id: u32, e: Employee)
    ensures
        after_init(after_init(v)) == after_init(v),
        after_init(after_add(after_init(v), id, e)) == after_add(after_init(v), id, e),
        holds(after_add(after_init(v), id, e), id),
        record(after_init(after_add(after_init(v), id, e)), id) == e,
{
}

/// Adding at an id that already holds a record replaces that record whole:
/// the store is as if only the second record had been added.
pub proof fn lemma_add_overwrites(v: Records, id: u32, first: Employee, second: Employee)
    requires
        v is Some,
    ensures
        after_add(after_add(v, id, first), id, second) == after_add(v, id, second),
        record(after_add(after_add(v, id, first), id, second), id) == second,
{
    assert(v->Some_0.insert(id, first).insert(id, second) =~= v->Some_0.insert(id, second));
}

/// A keyed store of employees.  It starts uninitialized; `init` makes it
/// usable, and from then on records are added or replaced, never removed.
pub struct PayrollDatabase {
    employees: Option<HashMap<u32, Employee>>,
}

impl View for PayrollDatabase {
    type V = Records;

    closed spec fn view(&self) -> Records {
        match self.employees {
            Some(m) => Some(m@),
            None => None,
        }
    }
}

impl PayrollDatabase {
    /// A store that is not yet initialized.
    pub fn new() -> (r: PayrollDatabase)
        ensures
            r@ == None::<Map<u32, Employee>>,
    {
        PayrollDatabase { employees: None }
    }

    /// Makes the store usable; on a store that is already initialized it does
    /// nothing.
    pub fn init(&mut self)
        ensures
            final(self)@ == after_init(old(self)@),
    {
        match self.employees {
            None => {
                self.employees = Some(HashMap::new());
            },
            Some(_) => {},
        }
    }

    /// Whether `init` has run.
    pub fn is_initialized(&self) -> (r: bool)
        ensures
            r == self@ is Some,
    {
        self.employees.is_some()
    }

    /// Whether a record is stored at `empid`.
    pub fn contains_employee(&self, empid: u32) -> (r: bool)
        ensures
            r == holds(self@, empid),
    {
        match &self.employees {
            Some(db) => db.contains_key(&empid),
            None => false,
        }
    }

    /// Stores `employee` at `empid`, replacing any record held there.
    pub fn add_employee(&mut self, empid: u32, employee: Employee)
        requires
            old(self)@ is Some,
        ensures
            final(self)@ == after_add(old(self)@, empid, employee),
    {
        match &mut self.employees {
            Some(db) => {
                db.insert(empid, employee);
            },
            None => {},
        }
    }

    /// The record stored at `empid`.
    pub fn get_employee(&self, empid: u32) -> (r: &Employee)
        requires
            holds(self@, empid),
        ensures
            *r == record(self@, empid),
    {
        match &self.employees {
            Some(db) => db.get(&empid).unwrap(),
            None => vstd::pervasive::unreached(),
        }
    }

    /// Records a time card on the employee at `empid` where that employee is
    /// paid by the hour, and reports whether it did; otherwise the store is
    /// left as it is.
    pub fn add_time_card(&mut self, empid: u32, tc: TimeCard) -> (added: bool)
        requires
            holds(old(self)@, empid),
        ensures
            added == record(old(self)@, empid).spec_classification() is Hourly,
            added ==> final(self)@ == after_add(old(self)@, empid, record(final(self)@, empid)),
            added ==> Employee::gained_time_card(
                record(old(self)@, empid),
                record(final(self)@, empid),
                tc,
            ),
            !added ==> final(self)@ == old(self)@,
    {
        match &mut self.employees {
            Some(db) => {
                let ghost before = db@;
                let mut employee = db.remove(&empid).unwrap();
                let added = employee.add_time_card(tc);
                db.insert(empid, employee);
                assert(db@ =~= before.insert(empid, employee));
                proof {
                    if !added {
                        assert(db@ =~= before);
                    }
                }
                added
            },
            None => false,
        }
    }
}

} // verus!
