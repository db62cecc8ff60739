//! Graph node identity as the adapter sees it: a 128-bit UUID, written in
//! its hyphenated lowercase form inside element ids.

use vstd::prelude::*;
use crate::text::{hex_digit, hex_digit_char, push_char};

verus! {

/// Stable identifier of one graph node (a UUID held as its 128-bit value).
#[derive(Debug, Clone, Copy, PartialEq, Eq, PartialOrd, Ord, Hash, Structural)]
pub struct NodeId(pub u128);

impl NodeId {
    pub fn from_u128(value: u128) -> (id: Self)
        ensures
            id.0 == value,
    {
        NodeId(value)
    }
}

/// The last `count` hexadecimal digits of `n`, most significant first.
pub open spec fn hex_digits(n: nat, count: nat) -> Seq<char>
    decreases count,
{
    if count == 0 {
        Seq::empty()
    } else {
        hex_digits(n / 16, (count - 1) as nat).push(hex_digit((n % 16) as int))
    }
}

/// `count` digits are produced.
pub proof fn lemma_hex_digits_len(n: nat, count: nat)
    ensures
        hex_digits(n, count).len() == count,
    decreases count,
{
    if count > 0 {
        lemma_hex_digits_len(n / 16, (count - 1) as nat);
    }
}

/// The first `i` digits of `d`, with a hyphen before digits 8, 12, 16 and 20.
pub open spec fn hyphenated_prefix(d: Seq<char>, i: nat) -> Seq<char>
    decreases i,
{
    if i == 0 {
        Seq::empty()
    } else {
        let k = (i - 1) as nat;
        let before = hyphenated_prefix(d, k);
        let sep = if k == 8 || k == 12 || k == 16 || k == 20 { before.push('-') } else { before };
        sep.push(d[k as int])
    }
}

/// A UUID in its hyphenated lowercase form: 32 hexadecimal digits, most
/// significant first, grouped 8-4-4-4-12.
pub open spec fn uuid_text(value: u128) -> Seq<char> {
    hyphenated_prefix(hex_digits(value as nat, 32), 32)
}

fn uuid_digits(value: u128) -> (digits: Vec<char>)
    ensures
        digits@ == hex_digits(value as nat, 32),
{
    let mut digits: Vec<char> = Vec::new();
    let mut k: usize = 0;
    while k < 32
        invariant
            k <= 32,
            digits@.len() == k,
        decreases 32 - k,
    {
        digits.push('0');
        k = k + 1;
    }
    let mut rem: u128 = value;
    let mut k: usize = 0;
    while k < 32
        invariant
            k <= 32,
            digits@.len() == 32,
            hex_digits(value as nat, 32) == hex_digits(rem as nat, (32 - k) as nat) + digits@.subrange(32 - k, 32),
        decreases 32 - k,
    {
        let d = rem % 16;
        let c = hex_digit_char(d as u64);
        let ghost tail = digits@.subrange(32 - k, 32);
        let ghost high = hex_digits((rem / 16) as nat, (31 - k) as nat);
        assert(hex_digits(rem as nat, (32 - k) as nat) == high.push(hex_digit((rem % 16) as int)));
        digits.set(31 - k, c);
        proof {
            assert(digits@.subrange(31 - k, 32) =~= seq![c] + tail);
            assert(high.push(c) + tail =~= high + (seq![c] + tail));
        }
        rem = rem / 16;
        k = k + 1;
    }
    assert(digits@.subrange(0, 32) =~= digits@);
    assert(hex_digits(rem as nat, 0) =~= Seq::<char>::empty());
    digits
}

/// The hyphenated lowercase text of a UUID value.
pub fn uuid_string(value: u128) -> (s: String)
    ensures
        s@ == uuid_text(value),
{
    let digits = uuid_digits(value);
    proof {
        lemma_hex_digits_len(value as nat, 32);
    }
    let mut s = String::new();
    let mut i: usize = 0;
    while i < 32
        invariant
            i <= 32,
            digits@ == hex_digits(value as nat, 32),
            digits@.len() == 32,
            s@ == hyphenated_prefix(digits@, i as nat),
        decreases 32 - i,
    {
        if i == 8 || i == 12 || i == 16 || i == 20 {
            push_char(&mut s, '-');
        }
        push_char(&mut s, digits[i]);
        i = i + 1;
    }
    s
}

impl NodeId {
    /// The node id's hyphenated UUID text.
    pub fn to_text(&self) -> (s: String)
        ensures
            s@ == uuid_text(self.0),
    {
        uuid_string(self.0)
    }
}

} // verus!
