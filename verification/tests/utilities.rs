use caprec::char_frequency;
use caprec::factorial;
use caprec::process_numbers;

#[test]
fn add_is_four() {
    assert_eq!(caprec::add(), 4);
}

#[test]
fn multiply_is_six() {
    assert_eq!(caprec::multiply(), 6);
}

#[test]
fn factorial_zero_is_absent() {
    assert_eq!(factorial(0), None);
}

#[test]
fn factorial_small_values() {
    assert_eq!(factorial(1), Some(1));
    assert_eq!(factorial(5), Some(120));
    assert_eq!(factorial(10), Some(3_628_800));
}

#[test]
fn factorial_largest_in_domain() {
    assert_eq!(factorial(20), Some(2_432_902_008_176_640_000));
}

#[test]
fn process_numbers_doubles() {
    let numbers = vec![1, 2, 3, 4];
    let doubled = process_numbers(numbers, |x| x * 2);
    assert_eq!(doubled, vec![2, 4, 6, 8]);
}

#[test]
fn process_numbers_identity_keeps_sequence() {
    let numbers = vec![5, -3, 0, 42];
    let same = process_numbers(numbers.clone(), |x| x);
    assert_eq!(same, numbers);
}

#[test]
fn process_numbers_empty() {
    let nothing = process_numbers(Vec::new(), |x| x + 1);
    assert_eq!(nothing, Vec::<i32>::new());
}

#[test]
fn char_frequency_hello() {
    let freq = char_frequency("hello");
    assert_eq!(freq.get(&('h' as u32)), Some(&1));
    assert_eq!(freq.get(&('e' as u32)), Some(&1));
    assert_eq!(freq.get(&('l' as u32)), Some(&2));
    assert_eq!(freq.get(&('o' as u32)), Some(&1));
    assert_eq!(freq.len(), 4);
}

#[test]
fn char_frequency_empty_text() {
    let freq = char_frequency("");
    assert_eq!(freq.len(), 0);
}

#[test]
fn char_frequency_counts_sum_to_length() {
    let text = "banana";
    let freq = char_frequency(text);
    let total: usize = freq.values().sum();
    assert_eq!(total, text.chars().count());
    for ch in text.chars() {
        assert!(freq.contains_key(&(ch as u32)));
    }
}

#[test]
fn char_frequency_beyond_ascii() {
    let freq = char_frequency("aßßa");
    assert_eq!(freq.get(&('a' as u32)), Some(&2));
    assert_eq!(freq.get(&('ß' as u32)), Some(&2));
    assert_eq!(freq.len(), 2);
}
