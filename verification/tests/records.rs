use caprec::base::BaseStruct;
use caprec::base::Processable;
use caprec::base::Readable;
use caprec::base::Worker;
use caprec::base::Writable;
use caprec::child::ChildStruct;
use caprec::processor::ConcreteProcessor;
use caprec::processor::MultipleInterfaces;

#[test]
fn base_identity() {
    let base = BaseStruct::new(String::from("alpha"), 7);
    assert_eq!(base.get_name(), "alpha");
    assert_eq!(base.id, 7);
    assert_eq!(base.execute(), "Executing base with name: alpha, ID: 7");
}

#[test]
fn child_holds_value_and_identity() {
    let child = ChildStruct::new(String::from("kid"), 3, -5);
    assert_eq!(child.get_value(), -5);
    assert_eq!(child.get_name(), "kid");
    assert_eq!(child.base.id, 3);
}

#[test]
fn child_process_line() {
    let child = ChildStruct::new(String::from("kid"), 3, 42);
    assert_eq!(child.process().unwrap(), "Processing child kid with value 42");
}

#[test]
fn child_process_line_negative_value() {
    let child = ChildStruct::new(String::from("kid"), 3, i32::MIN);
    assert_eq!(
        child.process().unwrap(),
        "Processing child kid with value -2147483648"
    );
}

#[test]
fn child_type_name() {
    let child = ChildStruct::new(String::from("kid"), 3, 0);
    assert_eq!(child.get_type(), "Child");
}

#[test]
fn child_worker_id_is_construction_id() {
    let child = ChildStruct::new(String::from("kid"), 31, 0);
    assert_eq!(child.get_worker_id(), 31);
}

#[test]
fn child_worker_execute_shadows_base_execute() {
    let child = ChildStruct::new(String::from("kid"), 3, 8);
    assert_eq!(child.execute(), "Executing child kid with value 8");
    assert_eq!(child.base_execute(), "Executing base with name: kid, ID: 3");
}

#[test]
fn processor_line_keeps_insertion_order() {
    let mut processor = ConcreteProcessor::new(String::from("proc"), 1);
    processor.add_data(String::from("first"));
    processor.add_data(String::from("second"));
    assert_eq!(
        processor.process().unwrap(),
        "Processing data in proc: [first, second]"
    );
}

#[test]
fn processor_without_items() {
    let processor = ConcreteProcessor::new(String::from("proc"), 1);
    assert_eq!(processor.process().unwrap(), "Processing data in proc: []");
}

#[test]
fn processor_type_name() {
    let processor = ConcreteProcessor::new(String::from("proc"), 1);
    assert_eq!(processor.get_type(), "Processor");
}

#[test]
fn processor_delegates_to_base() {
    let processor = ConcreteProcessor::new(String::from("proc"), 9);
    assert_eq!(processor.get_name(), "proc");
    assert_eq!(
        processor.base_execute(),
        "Executing base with name: proc, ID: 9"
    );
}

#[test]
fn multi_write_then_read_round_trip() {
    let mut record = MultipleInterfaces::new();
    assert_eq!(record.write(&[0x61, 0x62, 0x63]), Ok(()));
    assert_eq!(record.read().unwrap(), vec![0x61, 0x62, 0x63]);
}

#[test]
fn multi_starts_empty() {
    let record = MultipleInterfaces::new();
    assert_eq!(record.read().unwrap(), Vec::<u8>::new());
}

#[test]
fn multi_write_replaces_wholesale() {
    let mut record = MultipleInterfaces::new();
    assert_eq!(record.write(&[1, 2, 3]), Ok(()));
    assert_eq!(record.write(&[9]), Ok(()));
    assert_eq!(record.read().unwrap(), vec![9]);
}

#[test]
fn multi_process_decodes_buffer() {
    let mut record = MultipleInterfaces::new();
    assert_eq!(record.write(&[0x61, 0x62, 0x63]), Ok(()));
    assert_eq!(record.process().unwrap(), "Processing data: abc");
}

#[test]
fn multi_process_replaces_invalid_bytes() {
    let mut record = MultipleInterfaces::new();
    assert_eq!(record.write(&[0xFF, 0x61]), Ok(()));
    assert_eq!(record.process().unwrap(), "Processing data: \u{FFFD}a");
}

#[test]
fn multi_type_name() {
    let record = MultipleInterfaces::new();
    assert_eq!(record.get_type(), "MultiCapability");
}
