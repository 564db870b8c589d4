use crate::address::Address;
use crate::amount::Amount;
use stylus_sdk::alloy_sol_types::sol_data;
use stylus_sdk::alloy_sol_types::SolType;
use vstd::prelude::*;

verus! {

/// What a call into a token contract handed back: its return data, or the
/// revert data of a call that failed.
pub type CallReply = Result<Vec<u8>, Vec<u8>>;

/// The unsigned number that a byte string spells in big-endian order.
pub open spec fn be_value(s: Seq<u8>) -> nat
    decreases s.len(),
{
    if s.len() == 0 {
        0
    } else {
        be_value(s.drop_last()) * 256 + s.last() as nat
    }
}

/// The text that alloy's strict ABI decoder reads from return data declared
/// as `(string)`, or `None` where it refuses the data.
pub uninterp spec fn abi_string_of(data: Seq<u8>) -> Option<Seq<char>>;

/// The number held by the 32-byte word of `data` that starts at `start`.
pub open spec fn word_value(data: Seq<u8>, start: int) -> nat {
    be_value(data.subrange(start, start + 32))
}

/// Return data fit to be handed to the string decoder: two words at least,
/// the first pointing just past itself, the second a length no larger than
/// the data.
pub open spec fn string_head_ok(data: Seq<u8>) -> bool {
    &&& data.len() >= 64
    &&& word_value(data, 0) == 32
    &&& word_value(data, 32) <= data.len()
}

/// The text that return data declared as `(string)` holds. Data without the
/// head of `string_head_ok` holds none: every encoding of a string starts
/// with the offset word 32, and a length past the end of the data overruns
/// it. Otherwise it is what the decoder reads.
pub open spec fn decoded_label(data: Seq<u8>) -> Option<Seq<char>> {
    if string_head_ok(data) {
        abi_string_of(data)
    } else {
        None
    }
}

/// The amount that return data declared as `(uint256)` holds: one 32-byte
/// big-endian word, nothing before or after it.
pub open spec fn decoded_amount(data: Seq<u8>) -> Option<nat> {
    if data.len() == 32 {
        Some(be_value(data))
    } else {
        None
    }
}

/// The amount a reply stands for: zero where the call failed or its data
/// does not decode.
pub open spec fn amount_of_reply(reply: CallReply) -> nat {
    match reply {
        Ok(data) => match decoded_amount(data@) {
            Some(v) => v,
            None => 0,
        },
        Err(_) => 0,
    }
}

/// The label a reply stands for: empty where the call failed or its data
/// does not decode.
pub open spec fn label_of_reply(reply: CallReply) -> Seq<char> {
    match reply {
        Ok(data) => match decoded_label(data@) {
            Some(s) => s,
            None => Seq::empty(),
        },
        Err(_) => Seq::empty(),
    }
}

/// Relies on alloy-sol-types' `SolType::abi_decode_params` for `(uint256,)` in
/// validating mode: it reads one big-endian word and refuses data whose
/// re-encoding differs from it, so exactly 32 bytes pass; ruint's
/// `into_limbs` gives the limbs least significant first.
#[verifier::external_body]
fn decode_uint_word(data: &[u8]) -> (r: Option<Amount>)
    ensures
        match r {
            Some(a) => decoded_amount(data@) == Some(a@),
            None => decoded_amount(data@) is None,
        },
{
    match <(sol_data::Uint<256>,) as SolType>::abi_decode_params(data, true) {
        Ok((v,)) => Some(Amount { limbs: v.into_limbs() }),
        Err(_) => None,
    }
}

/// Relies on alloy-sol-types' `SolType::abi_decode_params` for `(string,)` in
/// validating mode: the text it reads depends on the data alone. The decoder
/// adds the length word to the position after it, so the length is bounded
/// by the data's size here to keep that sum from overflowing.
#[verifier::external_body]
fn decode_string_data(data: &[u8]) -> (r: Option<String>)
    requires
        string_head_ok(data@),
    ensures
        match r {
            Some(s) => abi_string_of(data@) == Some(s@),
            None => abi_string_of(data@) is None,
        },
{
    match <(sol_data::String,) as SolType>::abi_decode_params(data, true) {
        Ok((s,)) => Some(s),
        Err(_) => None,
    }
}

proof fn lemma_be_value_step(s: Seq<u8>, i: int)
    requires
        0 <= i < s.len(),
    ensures
        be_value(s.subrange(0, i + 1)) == be_value(s.subrange(0, i)) * 256 + s[i] as nat,
        be_value(s.subrange(0, i + 1)) >= be_value(s.subrange(0, i)),
{
    assert(s.subrange(0, i + 1).drop_last() =~= s.subrange(0, i));
}

/// Whether the 32-byte word of `data` at `start` holds a number no larger
/// than `bound`.
pub fn word_at_most(data: &[u8], start: usize, bound: usize) -> (r: bool)
    requires
        start + 32 <= data@.len(),
    ensures
        r == (word_value(data@, start as int) <= bound),
{
    let ghost w = data@.subrange(start as int, start + 32);
    let n: usize = data.len();
    let mut v: u128 = 0;
    let mut over = false;
    let mut i: usize = 0;
    assert(w.subrange(0, 0) =~= Seq::<u8>::empty());
    while i < 32
        invariant
            0 <= i <= 32,
            start + 32 <= n,
            n == data@.len(),
            w == data@.subrange(start as int, start + 32),
            !over ==> v == be_value(w.subrange(0, i as int)) && v <= bound,
            over ==> be_value(w.subrange(0, i as int)) > bound,
        decreases 32 - i,
    {
        proof {
            lemma_be_value_step(w, i as int);
        }
        if !over {
            let next: u128 = v * 256 + data[start + i] as u128;
            if next > bound as u128 {
                over = true;
            } else {
                v = next;
            }
        }
        i = i + 1;
    }
    assert(w.subrange(0, 32) =~= w);
    !over
}

/// The balance a reply to a `balanceOf` call stands for.
pub fn decode_balance(reply: &CallReply) -> (r: Amount)
    ensures
        r@ == amount_of_reply(*reply),
{
    match reply {
        Ok(data) => match decode_uint_word(data.as_slice()) {
            Some(a) => a,
            None => Amount::zero(),
        },
        Err(_) => Amount::zero(),
    }
}

/// The label a reply to a `name` or `symbol` call stands for.
pub fn decode_label(reply: &CallReply) -> (r: String)
    ensures
        r@ == label_of_reply(*reply),
{
    match reply {
        Ok(data) => {
            let d = data.as_slice();
            if d.len() >= 64 && word_at_most(d, 0, 32) && !word_at_most(d, 0, 31) && word_at_most(
                d,
                32,
                d.len(),
            ) {
                match decode_string_data(d) {
                    Some(s) => s,
                    None => String::new(),
                }
            } else {
                String::new()
            }
        },
        Err(_) => String::new(),
    }
}

/// The selector of `balanceOf(address)`.
pub open spec fn balance_of_selector() -> Seq<u8> {
    seq![0x70u8, 0xa0u8, 0x82u8, 0x31u8]
}

/// The selector of `name()`.
pub open spec fn name_selector() -> Seq<u8> {
    seq![0x06u8, 0xfdu8, 0xdeu8, 0x03u8]
}

/// The selector of `symbol()`.
pub open spec fn symbol_selector() -> Seq<u8> {
    seq![0x95u8, 0xd8u8, 0x9bu8, 0x41u8]
}

/// An address as one ABI word: twelve zero bytes, then its twenty bytes.
pub open spec fn address_word(a: Seq<u8>) -> Seq<u8> {
    Seq::new(12, |i: int| 0u8) + a
}

fn selector_bytes(b0: u8, b1: u8, b2: u8, b3: u8) -> (r: Vec<u8>)
    ensures
        r@ == seq![b0, b1, b2, b3],
{
    let mut v: Vec<u8> = Vec::new();
    v.push(b0);
    v.push(b1);
    v.push(b2);
    v.push(b3);
    assert(v@ =~= seq![b0, b1, b2, b3]);
    v
}

/// The call data of `balanceOf(account)`.
pub fn balance_call_data(account: &Address) -> (r: Vec<u8>)
    ensures
        r@ == balance_of_selector() + address_word(account@),
{
    let mut v = selector_bytes(0x70, 0xa0, 0x82, 0x31);
    let mut i: usize = 0;
    while i < 12
        invariant
            0 <= i <= 12,
            v@ == balance_of_selector() + Seq::new(i as nat, |j: int| 0u8),
        decreases 12 - i,
    {
        v.push(0);
        i = i + 1;
        assert(v@ =~= balance_of_selector() + Seq::new(i as nat, |j: int| 0u8));
    }
    let mut k: usize = 0;
    while k < 20
        invariant
            0 <= k <= 20,
            account@.len() == 20,
            v@ == balance_of_selector() + address_word(account@.subrange(0, k as int)),
        decreases 20 - k,
    {
        v.push(account.bytes[k]);
        k = k + 1;
        assert(v@ =~= balance_of_selector() + address_word(account@.subrange(0, k as int)));
    }
    assert(account@.subrange(0, 20) =~= account@);
    v
}

/// The call data of `name()`.
pub fn name_call_data() -> (r: Vec<u8>)
    ensures
        r@ == name_selector(),
{
    selector_bytes(0x06, 0xfd, 0xde, 0x03)
}

/// The call data of `symbol()`.
pub fn symbol_call_data() -> (r: Vec<u8>)
    ensures
        r@ == symbol_selector(),
{
    selector_bytes(0x95, 0xd8, 0x9b, 0x41)
}

} // verus!
