//! A composed record holding an ordered sequence of text items, and a record
//! advertising several capabilities over a byte buffer.

use crate::base::BaseStruct;
use crate::base::Processable;
use crate::base::Readable;
use crate::base::Writable;
use crate::base::base_execute_line;
use crate::text::join_items;
use crate::text::joined;
use crate::text::lossy_of;
use crate::text::utf8_lossy;
use crate::text::views_of;
use vstd::prelude::*;
use vstd::slice::slice_to_vec;
use vstd::string::StringExecFns;

verus! {

/// The line `process` emits for a processor record.
pub open spec fn processor_process_line(name: Seq<char>, items: Seq<Seq<char>>) -> Seq<char> {
    "Processing data in "@ + name + ": ["@ + joined(items) + "]"@
}

/// A record composed of an embedded base and an ordered sequence of text
/// items, which starts empty and only grows.
pub struct ConcreteProcessor {
    /// The embedded base record.
    pub base: BaseStruct,
    data: Vec<String>,
}

impl ConcreteProcessor {
    /// The items held so far, in insertion order.
    pub closed spec fn items(&self) -> Seq<Seq<char>> {
        views_of(self.data@)
    }

    /// The embedded base record, as contracts speak of it.
    pub closed spec fn spec_base(&self) -> BaseStruct {
        self.base
    }

    /// Constructs the embedded base from `name` and `id`, with no items yet.
    pub fn new(name: String, id: u32) -> (r: Self)
        ensures
            r.spec_base().name@ == name@,
            r.spec_base().id == id,
            r.items() == Seq::<Seq<char>>::empty(),
    {
        let r = Self { base: BaseStruct::new(name, id), data: Vec::new() };
        proof {
            assert(r.items() =~= Seq::<Seq<char>>::empty());
        }
        r
    }

    /// Appends one item, preserving insertion order; nothing else changes.
    pub fn add_data(&mut self, item: String)
        ensures
            final(self).items() == old(self).items().push(item@),
            final(self).spec_base() == old(self).spec_base(),
    {
        self.data.push(item);
        proof {
            assert(self.items() =~= old(self).items().push(item@));
        }
    }

    /// Delegates to the embedded base: its name, unchanged.
    pub fn get_name(&self) -> (r: &str)
        ensures
            r@ == self.spec_base().name@,
    {
        self.base.get_name()
    }

    /// Delegates to the embedded base: exactly the line the base itself
    /// would emit.
    pub fn base_execute(&self) -> (line: String)
        ensures
            line@ == base_execute_line(self.spec_base().name@, self.spec_base().id),
    {
        self.base.execute()
    }
}

impl Processable for ConcreteProcessor {
    /// Processing never fails and emits a line holding the record's name and
    /// its items in insertion order.
    fn process(&self) -> (r: Result<String, String>)
        ensures
            r matches Ok(line) && line@ == processor_process_line(self.spec_base().name@, self.items()),
    {
        let mut line = String::from_str("Processing data in ");
        line.append(self.base.get_name());
        line.append(": [");
        line.append(join_items(&self.data).as_str());
        line.append("]");
        Ok(line)
    }

    fn get_type(&self) -> (r: String)
        ensures
            r@ == "Processor"@,
    {
        String::from_str("Processor")
    }
}

/// Law: a processor constructed with a name and then given two items — so
/// that its items are exactly `a` then `b` — emits, on processing, a line
/// holding that name and both items in insertion order.
pub proof fn lemma_process_line_order(
    name: Seq<char>,
    a: Seq<char>,
    b: Seq<char>,
    items: Seq<Seq<char>>,
)
    requires
        items == Seq::<Seq<char>>::empty().push(a).push(b),
    ensures
        processor_process_line(name, items) == "Processing data in "@ + name + ": ["@ + a
            + ", "@ + b + "]"@,
{
    assert(items =~= seq![a, b]);
    assert(items.drop_last() =~= seq![a]);
    assert(joined(items) == joined(seq![a]) + ", "@ + b);
    assert(joined(seq![a]) == a);
    assert(processor_process_line(name, items) =~= "Processing data in "@ + name + ": ["@ + a
        + ", "@ + b + "]"@);
}

/// What a successful write guarantees: the held bytes become the written
/// bytes, wholesale.
pub open spec fn write_post(
    pre: MultipleInterfaces,
    post: MultipleInterfaces,
    data: Seq<u8>,
    r: Result<(), String>,
) -> bool {
    &&& post@ == data
    &&& r is Ok
}

/// What a read guarantees: a copy of the held bytes, byte for byte.
pub open spec fn read_post(m: MultipleInterfaces, r: Result<Vec<u8>, String>) -> bool {
    r matches Ok(bytes) && bytes@ == m@
}

/// A record advertising the process, read and write capabilities over one
/// byte buffer; it embeds no base record.
pub struct MultipleInterfaces {
    data: Vec<u8>,
}

impl View for MultipleInterfaces {
    type V = Seq<u8>;

    /// The record is its held bytes.
    closed spec fn view(&self) -> Seq<u8> {
        self.data@
    }
}

impl MultipleInterfaces {
    /// Constructs with an empty buffer.
    pub fn new() -> (r: Self)
        ensures
            r@ == Seq::<u8>::empty(),
    {
        Self { data: Vec::new() }
    }
}

impl Readable for MultipleInterfaces {
    /// Never fails; the caller receives a copy, not a view into the record.
    fn read(&self) -> (r: Result<Vec<u8>, String>)
        ensures
            read_post(*self, r),
    {
        Ok(slice_to_vec(self.data.as_slice()))
    }
}

impl Writable for MultipleInterfaces {
    /// Never fails; replaces the buffer wholesale, never appends.
    fn write(&mut self, data: &[u8]) -> (r: Result<(), String>)
        ensures
            write_post(*old(self), *final(self), data@, r),
    {
        self.data = slice_to_vec(data);
        Ok(())
    }
}

impl Processable for MultipleInterfaces {
    /// Processing never fails and emits a line holding the buffer decoded
    /// lossily as text.
    fn process(&self) -> (r: Result<String, String>)
        ensures
            r matches Ok(line) && line@ == "Processing data: "@ + lossy_of(self@),
    {
        let mut line = String::from_str("Processing data: ");
        line.append(utf8_lossy(self.data.as_slice()).as_str());
        Ok(line)
    }

    fn get_type(&self) -> (r: String)
        ensures
            r@ == "MultiCapability"@,
    {
        String::from_str("MultiCapability")
    }
}

/// Law: writing bytes and then reading yields the written bytes, byte for
/// byte. A write that took the record from `pre` to `post` forces the held
/// bytes to equal `data`, and a read of `post` returns exactly those bytes.
pub proof fn lemma_write_read_round_trip(
    pre: MultipleInterfaces,
    post: MultipleInterfaces,
    data: Seq<u8>,
    write_result: Result<(), String>,
    read_result: Result<Vec<u8>, String>,
)
    requires
        write_post(pre, post, data, write_result),
        read_post(post, read_result),
    ensures
        read_result matches Ok(bytes) && bytes@ == data,
{
}

} // verus!
