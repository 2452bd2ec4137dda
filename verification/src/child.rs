//! A composed record embedding a base record and carrying one extra value.

use crate::base::BaseStruct;
use crate::base::Processable;
use crate::base::Worker;
use crate::base::base_execute_line;
use crate::text::dec_int;
use crate::text::i32_to_string;
use vstd::prelude::*;
use vstd::string::StringExecFns;

verus! {

/// The line `process` emits for a child record.
pub open spec fn child_process_line(name: Seq<char>, value: int) -> Seq<char> {
    "Processing child "@ + name + " with value "@ + dec_int(value)
}

/// The line the worker's `execute` emits for a child record.
pub open spec fn child_execute_line(name: Seq<char>, value: int) -> Seq<char> {
    "Executing child "@ + name + " with value "@ + dec_int(value)
}

/// What construction of a child record guarantees: the embedded base holds
/// the given identity and the extra value is stored.
pub open spec fn child_new_post(c: ChildStruct, name: Seq<char>, id: u32, value: i32) -> bool {
    &&& c.base.name@ == name
    &&& c.base.id == id
    &&& c.value == value
}

/// A record composed of an embedded base and a signed value. Composition,
/// not subtyping: the base's readable operations are forwarded explicitly.
pub struct ChildStruct {
    /// The embedded base record.
    pub base: BaseStruct,
    /// The record's extra value.
    pub value: i32,
}

impl ChildStruct {
    /// Constructs the embedded base from `name` and `id` and stores `value`.
    pub fn new(name: String, id: u32, value: i32) -> (r: Self)
        ensures
            child_new_post(r, name@, id, value),
    {
        Self { base: BaseStruct::new(name, id), value }
    }

    /// The record's extra value.
    pub fn get_value(&self) -> (r: i32)
        ensures
            r == self.value,
    {
        self.value
    }

    /// Delegates to the embedded base: its name, unchanged.
    pub fn get_name(&self) -> (r: &str)
        ensures
            r@ == self.base.name@,
    {
        self.base.get_name()
    }

    /// Delegates to the embedded base: exactly the line the base itself
    /// would emit.
    pub fn base_execute(&self) -> (line: String)
        ensures
            line@ == base_execute_line(self.base.name@, self.base.id),
    {
        self.base.execute()
    }
}

impl Processable for ChildStruct {
    /// Processing a child never fails and emits a line holding its name and
    /// value.
    fn process(&self) -> (r: Result<String, String>)
        ensures
            r matches Ok(line) && line@ == child_process_line(self.base.name@, self.value as int),
    {
        let mut line = String::from_str("Processing child ");
        line.append(self.base.get_name());
        line.append(" with value ");
        line.append(i32_to_string(self.value).as_str());
        Ok(line)
    }

    fn get_type(&self) -> (r: String)
        ensures
            r@ == "Child"@,
    {
        String::from_str("Child")
    }
}

impl Worker for ChildStruct {
    /// The worker's execution step shadows the base's `execute` by behavior:
    /// both remain reachable, selected by the caller's capability view.
    fn execute(&self) -> (line: String)
        ensures
            line@ == child_execute_line(self.base.name@, self.value as int),
    {
        let mut line = String::from_str("Executing child ");
        line.append(self.base.get_name());
        line.append(" with value ");
        line.append(i32_to_string(self.value).as_str());
        line
    }

    fn get_worker_id(&self) -> (r: u32)
        ensures
            r == self.base.id,
    {
        self.base.id
    }
}

/// Law: viewed as a worker, a child reports exactly the id it was
/// constructed with. Construction stores the id in the embedded base, and
/// the worker's id is read from there.
pub proof fn lemma_worker_id_round_trip(
    c: ChildStruct,
    name: Seq<char>,
    id: u32,
    value: i32,
    reported: u32,
)
    requires
        child_new_post(c, name, id, value),
        reported == c.base.id,
    ensures
        reported == id,
{
}

} // verus!
