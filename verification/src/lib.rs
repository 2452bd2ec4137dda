//! A small collection of demonstration utilities: a pure utility layer
//! (arithmetic helpers, sequence processing, character frequencies) and a
//! capability-composition layer (a base record reused by composed records,
//! each advertising one or more behavioral capabilities).

use std::collections::HashMap;
use vstd::prelude::*;

verus! {

/// The product `1 * 2 * ... * n`.
pub open spec fn fact(n: nat) -> nat
    decreases n,
{
    if n == 0 {
        1
    } else {
        n * fact((n - 1) as nat)
    }
}

/// Returns the fixed constant 4.
pub fn add() -> (r: i32)
    ensures
        r == 4,
{
    let res: i32 = 2 + 2;
    res
}

/// Returns the fixed constant 6.
pub fn multiply() -> (r: i32)
    ensures
        r == 6,
{
    2 * 3
}

/// `fact` grows monotonically, so every factorial up to `fact(20)` fits
/// comfortably below it.
proof fn lemma_fact_monotonic(i: nat, j: nat)
    requires
        i <= j,
    ensures
        fact(i) <= fact(j),
    decreases j,
{
    if i < j {
        lemma_fact_monotonic(i, (j - 1) as nat);
        assert(fact(j) == j * fact((j - 1) as nat));
        assert(fact(i) <= fact(j)) by (nonlinear_arith)
            requires
                j >= 1,
                fact(i) <= fact((j - 1) as nat),
                fact(j) == j * fact((j - 1) as nat),
        ;
    }
}

/// The largest factorial this library ever computes still fits in 64 bits.
proof fn lemma_fact_20_fits_u64()
    ensures
        fact(20) == 2432902008176640000,
{
    assert(fact(0) == 1);
    assert(fact(1) == 1);
    assert(fact(2) == 2);
    assert(fact(3) == 6);
    assert(fact(4) == 24);
    assert(fact(5) == 120);
    assert(fact(6) == 720);
    assert(fact(7) == 5040);
    assert(fact(8) == 40320);
    assert(fact(9) == 362880);
    assert(fact(10) == 3628800);
    assert(fact(11) == 39916800);
    assert(fact(12) == 479001600);
    assert(fact(13) == 6227020800);
    assert(fact(14) == 87178291200);
    assert(fact(15) == 1307674368000);
    assert(fact(16) == 20922789888000);
    assert(fact(17) == 355687428096000);
    assert(fact(18) == 6402373705728000);
    assert(fact(19) == 121645100408832000);
    assert(fact(20) == 2432902008176640000);
}

/// The factorial of `n`, or the absent case when `n` is 0.
///
/// Absent for 0 is a deliberate domain gap of this library, not the
/// mathematical convention. Callers keep `n` small enough that the product
/// fits 64 bits.
pub fn factorial(n: u32) -> (r: Option<u64>)
    requires
        n <= 20,
    ensures
        n == 0 <==> r is None,
        n >= 1 ==> r == Some(fact(n as nat) as u64),
{
    if n == 0 {
        return None;
    }
    proof {
        lemma_fact_20_fits_u64();
    }
    let mut result: u64 = 1;
    let mut i: u32 = 1;
    while i <= n
        invariant
            1 <= i <= n + 1,
            n <= 20,
            result == fact((i - 1) as nat),
            fact(20) == 2432902008176640000,
        decreases n + 1 - i,
    {
        proof {
            lemma_fact_monotonic(i as nat, 20);
            assert(fact(i as nat) == i * fact((i - 1) as nat));
            assert(result * i == fact(i as nat)) by (nonlinear_arith)
                requires
                    result == fact((i - 1) as nat),
                    i >= 1,
                    fact(i as nat) == i * fact((i - 1) as nat),
            ;
        }
        result = result * (i as u64);
        i = i + 1;
    }
    proof {
        lemma_fact_monotonic(n as nat, 20);
    }
    Some(result)
}

/// Applies `processor` to each element in order, producing a new sequence of
/// equal length. The input is not mutated; order is preserved.
pub fn process_numbers<F: Fn(i32) -> i32>(numbers: Vec<i32>, processor: F) -> (result: Vec<i32>)
    requires
        forall|i: int| 0 <= i < numbers@.len() ==> call_requires(processor, (numbers@[i],)),
    ensures
        result@.len() == numbers@.len(),
        forall|i: int|
            0 <= i < numbers@.len() ==> call_ensures(processor, (numbers@[i],), #[trigger] result@[i]),
{
    let mut result: Vec<i32> = Vec::new();
    let mut j: usize = 0;
    while j < numbers.len()
        invariant
            j <= numbers@.len(),
            result@.len() == j,
            forall|i: int| 0 <= i < numbers@.len() ==> call_requires(processor, (numbers@[i],)),
            forall|i: int|
                0 <= i < j ==> call_ensures(processor, (numbers@[i],), #[trigger] result@[i]),
        decreases numbers@.len() - j,
    {
        let y = processor(numbers[j]);
        result.push(y);
        j = j + 1;
    }
    result
}

/// Law: a processor that can only hand its argument back leaves the sequence
/// unchanged. Any output sequence meeting the contract of `process_numbers`
/// equals the input, element for element.
pub proof fn lemma_process_numbers_identity<F: Fn(i32) -> i32>(
    processor: F,
    s: Seq<i32>,
    result: Seq<i32>,
)
    requires
        forall|x: i32, y: i32| call_ensures(processor, (x,), y) ==> y == x,
        result.len() == s.len(),
        forall|i: int| 0 <= i < s.len() ==> call_ensures(processor, (s[i],), #[trigger] result[i]),
    ensures
        result == s,
{
    assert(result =~= s);
}

/// How many times `c` occurs in `s`.
pub open spec fn count_of(s: Seq<char>, c: char) -> nat
    decreases s.len(),
{
    if s.len() == 0 {
        0
    } else {
        count_of(s.drop_last(), c) + (if s.last() == c {
            1nat
        } else {
            0nat
        })
    }
}

/// The key under which a character is stored in a frequency map: its code
/// point.
pub open spec fn char_key(c: char) -> u32 {
    c as u32
}

/// Every character's code point is below 2^32, so the cast to its map key
/// loses nothing.
proof fn lemma_char_key_exact(c: char)
    ensures
        char_key(c) == c as int,
{
}

/// A character occurs at most as often as the sequence is long.
proof fn lemma_count_le_len(s: Seq<char>, c: char)
    ensures
        count_of(s, c) <= s.len(),
    decreases s.len(),
{
    if s.len() > 0 {
        lemma_count_le_len(s.drop_last(), c);
    }
}

/// Appending one character raises its own count by one and leaves every
/// other count unchanged.
proof fn lemma_count_push(s: Seq<char>, x: char, c: char)
    ensures
        count_of(s.push(x), c) == count_of(s, c) + (if c == x {
            1nat
        } else {
            0nat
        }),
{
    assert(s.push(x).drop_last() =~= s);
}

/// The frequency map of `text`: each character that occurs at least once is
/// present, keyed by its code point, with its exact occurrence count; no
/// other key is present and no count is zero.
pub fn char_frequency(text: &str) -> (freq: HashMap<u32, usize>)
    ensures
        forall|c: char| freq@.contains_key(char_key(c)) <==> count_of(text@, c) > 0,
        forall|c: char|
            count_of(text@, c) > 0 ==> freq@[char_key(c)] == count_of(text@, c),
        forall|k: u32| freq@.contains_key(k) ==> exists|c: char| char_key(c) == k,
{
    let total = text.unicode_len();
    let mut freq: HashMap<u32, usize> = HashMap::new();
    for ch in it: text.chars()
        invariant
            it.seq() == text@,
            text@.len() == total,
            forall|c: char|
                freq@.contains_key(char_key(c)) <==> count_of(
                    text@.take(it.index()),
                    c,
                ) > 0,
            forall|c: char|
                count_of(text@.take(it.index()), c) > 0 ==> freq@[char_key(c)]
                    == count_of(text@.take(it.index()), c),
            forall|k: u32| freq@.contains_key(k) ==> exists|c: char| char_key(c) == k,
    {
        proof {
            let done = it.index();
            assert(ch == text@[done]);
            assert(text@.take(done + 1) =~= text@.take(done).push(text@[done]));
            lemma_count_le_len(text@.take(done), ch);
            assert forall|c: char|
                count_of(text@.take(done + 1), c) == count_of(text@.take(done), c) + (if c == ch {
                    1nat
                } else {
                    0nat
                }) by {
                lemma_count_push(text@.take(done), ch, c);
            }
            lemma_char_key_exact(ch);
            assert forall|c: char| c != ch implies char_key(c) != char_key(ch) by {
                lemma_char_key_exact(c);
            }
        }
        let key = ch as u32;
        let count: usize = match freq.get(&key) {
            Some(v) => {
                proof {
                    assert(0 <= it.index() < text@.len());
                    assert(freq@.contains_key(char_key(ch)));
                    assert(*v == count_of(text@.take(it.index()), ch));
                    assert(*v <= it.index());
                }
                *v + 1
            },
            None => 1,
        };
        freq.insert(key, count);
    }
    proof {
        assert(text@.take(text@.len() as int) =~= text@);
    }
    freq
}

/// The counts of the characters listed in `keys`, summed over `s`.
pub open spec fn sum_counts(keys: Seq<char>, s: Seq<char>) -> nat
    decreases keys.len(),
{
    if keys.len() == 0 {
        0
    } else {
        sum_counts(keys.drop_last(), s) + count_of(s, keys.last())
    }
}

/// Appending a character to the counted text raises the sum by the number of
/// times that character is listed.
proof fn lemma_sum_counts_push(keys: Seq<char>, s: Seq<char>, x: char)
    ensures
        sum_counts(keys, s.push(x)) == sum_counts(keys, s) + count_of(keys, x),
    decreases keys.len(),
{
    if keys.len() > 0 {
        lemma_sum_counts_push(keys.drop_last(), s, x);
        lemma_count_push(s, x, keys.last());
    }
}

/// In a duplicate-free listing a character is counted once if present and
/// never otherwise.
proof fn lemma_count_no_duplicates(keys: Seq<char>, x: char)
    requires
        keys.no_duplicates(),
    ensures
        count_of(keys, x) == (if keys.contains(x) {
            1nat
        } else {
            0nat
        }),
    decreases keys.len(),
{
    if keys.len() > 0 {
        let kd = keys.drop_last();
        lemma_count_no_duplicates(kd, x);
        if keys.last() == x {
            assert(!kd.contains(x)) by {
                if kd.contains(x) {
                    let i = choose|i: int| 0 <= i < kd.len() && kd[i] == x;
                    assert(keys[i] == keys[keys.len() - 1]);
                }
            }
        } else {
            assert(keys.contains(x) <==> kd.contains(x)) by {
                if keys.contains(x) {
                    let i = choose|i: int| 0 <= i < keys.len() && keys[i] == x;
                    assert(kd[i] == x);
                }
                if kd.contains(x) {
                    let i = choose|i: int| 0 <= i < kd.len() && kd[i] == x;
                    assert(keys[i] == x);
                }
            }
        }
    }
}

/// Dropping one listed character from the listing lowers the sum by exactly
/// that character's count.
proof fn lemma_sum_counts_remove(keys: Seq<char>, s: Seq<char>, i: int)
    requires
        0 <= i < keys.len(),
    ensures
        sum_counts(keys, s) == sum_counts(keys.remove(i), s) + count_of(s, keys[i]),
    decreases keys.len(),
{
    keys.remove_ensures(i);
    if i == keys.len() - 1 {
        assert(keys.remove(i) =~= keys.drop_last());
    } else {
        lemma_sum_counts_remove(keys.drop_last(), s, i);
        assert(keys.remove(i).drop_last() =~= keys.drop_last().remove(i));
        assert(keys.remove(i).last() == keys.last());
    }
}

/// Law: the counts of the distinct characters of a text sum to its length.
///
/// Any duplicate-free listing of exactly the characters that occur in `s` —
/// such as the key set of `char_frequency` — has counts that add up to the
/// number of characters of `s`.
pub proof fn lemma_char_frequency_total(s: Seq<char>, keys: Seq<char>)
    requires
        keys.no_duplicates(),
        forall|c: char| keys.contains(c) <==> count_of(s, c) > 0,
    ensures
        sum_counts(keys, s) == s.len(),
    decreases s.len(),
{
    if s.len() == 0 {
        if keys.len() > 0 {
            assert(keys.contains(keys.last()));
        }
    } else {
        let s0 = s.drop_last();
        let x = s.last();
        assert(s =~= s0.push(x));
        assert(count_of(s, x) > 0);
        assert(keys.contains(x));
        lemma_sum_counts_push(keys, s0, x);
        lemma_count_no_duplicates(keys, x);
        assert forall|c: char| count_of(s, c) == count_of(s0, c) + (if c == x {
            1nat
        } else {
            0nat
        }) by {
            lemma_count_push(s0, x, c);
        }
        if count_of(s0, x) > 0 {
            assert forall|c: char| keys.contains(c) <==> count_of(s0, c) > 0 by {}
            lemma_char_frequency_total(s0, keys);
        } else {
            let i = keys.index_of(x);
            assert(0 <= i < keys.len() && keys[i] == x);
            let keys0 = keys.remove(i);
            keys.remove_ensures(i);
            assert(keys0.no_duplicates()) by {
                assert forall|a: int, b: int|
                    0 <= a < keys0.len() && 0 <= b < keys0.len() && a != b implies keys0[a]
                    != keys0[b] by {
                    let a1: int = if a < i {
                        a
                    } else {
                        a + 1
                    };
                    let b1: int = if b < i {
                        b
                    } else {
                        b + 1
                    };
                    assert(keys0[a] == keys[a1] && keys0[b] == keys[b1]);
                }
            }
            assert forall|c: char| keys0.contains(c) <==> count_of(s0, c) > 0 by {
                if keys0.contains(c) {
                    let j = choose|j: int| 0 <= j < keys0.len() && keys0[j] == c;
                    let j1: int = if j < i {
                        j
                    } else {
                        j + 1
                    };
                    assert(keys[j1] == c);
                    assert(keys.contains(c));
                    assert(c != x);
                }
                if count_of(s0, c) > 0 {
                    assert(c != x);
                    assert(keys.contains(c));
                    let j = choose|j: int| 0 <= j < keys.len() && keys[j] == c;
                    let j0: int = if j < i {
                        j
                    } else {
                        j - 1
                    };
                    assert(keys0[j0] == c);
                    assert(keys0.contains(c));
                }
            }
            lemma_char_frequency_total(s0, keys0);
            lemma_sum_counts_remove(keys, s0, i);
        }
    }
}

} // verus!

pub mod base;
pub mod child;
pub mod processor;
pub mod text;
