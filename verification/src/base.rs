//! The base record and the capability contracts.
//!
//! A base record carries identity fields and offers readable accessors and a
//! demonstration `execute`. Composed records embed it and forward its
//! operations explicitly; they remain distinct from it in identity and in
//! capability set.
//!
//! Demonstration operations destined for the standard output sink return
//! the emitted line instead, so that its contents stand in the contracts;
//! printing is left to unverified callers.

use crate::text::dec_nat;
use crate::text::u64_to_string;
use vstd::prelude::*;
use vstd::string::StringExecFns;

verus! {

/// The ability to process held data, emitting a descriptive line, and to name
/// one's own record kind. Implementations of this library never fail; the
/// failure channel is reserved for downstream implementors.
pub trait Processable {
    /// Processes the record's data; on success the emitted line is returned.
    fn process(&self) -> Result<String, String>;

    /// The fixed literal naming the record's kind.
    fn get_type(&self) -> String;
}

/// The ability to read held bytes.
pub trait Readable {
    /// Returns a copy of the held bytes on success.
    fn read(&self) -> Result<Vec<u8>, String>;
}

/// The ability to replace held bytes.
pub trait Writable {
    /// Replaces the held bytes wholesale on success.
    fn write(&mut self, data: &[u8]) -> Result<(), String>;
}

/// A record that can be dispatched as a worker; extends `Processable` with an
/// execution step and a worker identity.
pub trait Worker: Processable {
    /// Performs the worker's execution step; the emitted line is returned.
    fn execute(&self) -> String;

    /// The worker's numeric identity.
    fn get_worker_id(&self) -> u32;
}

/// The line `execute` emits for a base record.
pub open spec fn base_execute_line(name: Seq<char>, id: u32) -> Seq<char> {
    "Executing base with name: "@ + name + ", ID: "@ + dec_nat(id as nat)
}

/// A composable record carrying identity fields.
pub struct BaseStruct {
    /// The record's name.
    pub name: String,
    /// The record's numeric identity.
    pub id: u32,
}

impl BaseStruct {
    /// Constructs a base record with the given identity.
    pub fn new(name: String, id: u32) -> (r: Self)
        ensures
            r.name@ == name@,
            r.id == id,
    {
        Self { name, id }
    }

    /// The line identifying this record by name and id.
    pub fn execute(&self) -> (line: String)
        ensures
            line@ == base_execute_line(self.name@, self.id),
    {
        let mut line = String::from_str("Executing base with name: ");
        line.append(self.name.as_str());
        line.append(", ID: ");
        line.append(u64_to_string(self.id as u64).as_str());
        line
    }

    /// Read-only access to the record's name.
    pub fn get_name(&self) -> (r: &str)
        ensures
            r@ == self.name@,
    {
        self.name.as_str()
    }
}

} // verus!
