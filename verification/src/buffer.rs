//! What a keystroke buffer means: the digest that a PIN entry is checked by,
//! and the amount that a withdrawal entry asks for.

use crate::keypad::Key;
use std::collections::hash_map::DefaultHasher;
use std::hash::Hasher;
use vstd::prelude::*;
use vstd::std_specs::hash::DefaultHasherAdditionalSpecFns;

verus! {

/// The bytes that stand for a sequence of keys in a digest: one byte per
/// key, its digit, in the order of entry.
pub open spec fn key_codes(keys: Seq<Key>) -> Seq<u8> {
    Seq::new(keys.len(), |i: int| keys[i].spec_digit())
}

/// The digest of a sequence of keys: what the standard hasher makes of
/// `key_codes(keys)`, written to it in one piece.
pub open spec fn digest(keys: Seq<Key>) -> u64 {
    DefaultHasher::spec_finish(seq![key_codes(keys)])
}

/// The amount that a sequence of keys spells: its digits read as a decimal
/// number, the first key being the most significant.  No key at all spells
/// zero.
pub open spec fn decimal_value(keys: Seq<Key>) -> nat
    decreases keys.len(),
{
    if keys.len() == 0 {
        0
    } else {
        10 * decimal_value(keys.drop_last()) + keys.last().spec_digit() as nat
    }
}

/// A longer entry never spells less than the part of it that came first.
pub proof fn lemma_decimal_value_prefix(keys: Seq<Key>, n: int)
    requires
        0 <= n <= keys.len(),
    ensures
        decimal_value(keys.take(n)) <= decimal_value(keys),
    decreases keys.len(),
{
    if n == keys.len() {
        assert(keys.take(n) =~= keys);
    } else {
        assert(keys.drop_last().take(n) =~= keys.take(n));
        lemma_decimal_value_prefix(keys.drop_last(), n);
    }
}

/// The bytes of `key_codes`, for the hasher.
fn codes_of(keys: &Vec<Key>) -> (codes: Vec<u8>)
    ensures
        codes@ == key_codes(keys@),
{
    let mut codes: Vec<u8> = Vec::new();
    let mut i: usize = 0;
    while i < keys.len()
        invariant
            i <= keys.len(),
            codes@ == key_codes(keys@.take(i as int)),
        decreases keys.len() - i,
    {
        codes.push(keys[i].digit());
        i += 1;
        assert(codes@ =~= key_codes(keys@.take(i as int)));
    }
    assert(keys@.take(i as int) =~= keys@);
    codes
}

/// The digest of the keys pressed, in the order in which they were pressed.
/// The same keys always give the same digest.
pub fn hash(keys: &Vec<Key>) -> (h: u64)
    ensures
        h == digest(keys@),
{
    let codes = codes_of(keys);
    let mut state = DefaultHasher::new();
    state.write(codes.as_slice());
    assert(state@ =~= seq![key_codes(keys@)]);
    state.finish()
}

/// The amount that the keys spell, where it is at most `limit`.
pub fn amount_within(keys: &Vec<Key>, limit: u64) -> (amount: Option<u64>)
    ensures
        amount == if decimal_value(keys@) <= limit {
            Some(decimal_value(keys@) as u64)
        } else {
            None
        },
{
    let mut value: u64 = 0;
    let mut i: usize = 0;
    while i < keys.len()
        invariant
            i <= keys.len(),
            value == decimal_value(keys@.take(i as int)),
            value <= limit,
        decreases keys.len() - i,
    {
        let next: u128 = value as u128 * 10 + keys[i].digit() as u128;
        proof {
            let longer = keys@.take(i + 1);
            assert(longer.drop_last() =~= keys@.take(i as int));
            assert(longer.last() == keys@[i as int]);
            assert(next == decimal_value(longer));
            lemma_decimal_value_prefix(keys@, i + 1);
        }
        if next > limit as u128 {
            return None;
        }
        value = next as u64;
        i += 1;
    }
    assert(keys@.take(i as int) =~= keys@);
    Some(value)
}

} // verus!
