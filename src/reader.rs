use crate::abi::{amount_of_reply, decode_balance, decode_label, label_of_reply, CallReply};
use crate::address::Address;
use crate::amount::Amount;
use vstd::prelude::*;

verus! {

/// The one condition that aborts a call on the reader.
#[derive(Clone, Copy, Debug, PartialEq, Eq, Structural)]
pub enum ReaderError {
    AlreadyInitialized,
}

impl ReaderError {
    /// The revert message that goes with the error.
    pub fn message(&self) -> (r: Vec<u8>)
        ensures
            r@ == already_initialized_message(),
    {
        let text: [u8; 19] = [
            0x41, 0x6c, 0x72, 0x65, 0x61, 0x64, 0x79, 0x20, 0x69, 0x6e, 0x69, 0x74, 0x69, 0x61,
            0x6c, 0x69, 0x7a, 0x65, 0x64,
        ];
        assert(text@ =~= already_initialized_message());
        let mut v: Vec<u8> = Vec::new();
        let mut i: usize = 0;
        while i < 19
            invariant
                0 <= i <= 19,
                text@ == already_initialized_message(),
                v@ == already_initialized_message().subrange(0, i as int),
            decreases 19 - i,
        {
            v.push(text[i]);
            i = i + 1;
            assert(v@ =~= already_initialized_message().subrange(0, i as int));
        }
        assert(v@ =~= already_initialized_message());
        v
    }
}

/// The bytes of `Already initialized`.
pub open spec fn already_initialized_message() -> Seq<u8> {
    seq![0x41u8, 0x6cu8, 0x72u8, 0x65u8, 0x61u8, 0x64u8, 0x79u8, 0x20u8, 0x69u8, 0x6eu8,
        0x69u8, 0x74u8, 0x69u8, 0x61u8, 0x6cu8, 0x69u8, 0x7au8, 0x65u8, 0x64u8]
}

/// The reader's one transition: from the flag before, the flag after and the
/// outcome.
pub open spec fn initialize_step(initialized: bool) -> (bool, Result<(), ReaderError>) {
    if initialized {
        (true, Err(ReaderError::AlreadyInitialized))
    } else {
        (true, Ok(()))
    }
}

/// The amount at a position of a balance batch: read from the reply there;
/// a position with no reply is a call that failed.
pub open spec fn slot_amount(replies: Seq<CallReply>, i: int) -> nat {
    if 0 <= i < replies.len() {
        amount_of_reply(replies[i])
    } else {
        0
    }
}

/// The label at a position of a label batch: read from the reply there; a
/// position with no reply is a call that failed.
pub open spec fn slot_label(replies: Seq<CallReply>, i: int) -> Seq<char> {
    if 0 <= i < replies.len() {
        label_of_reply(replies[i])
    } else {
        Seq::empty()
    }
}

/// `out` is the answer of a balance batch over `n` targets: one amount per
/// target, in order, each read from that target's reply alone.
pub open spec fn balances_answer(n: nat, replies: Seq<CallReply>, out: Seq<Amount>) -> bool {
    &&& out.len() == n
    &&& forall|i: int| 0 <= i < n ==> #[trigger] out[i]@ == slot_amount(replies, i)
}

/// `out` is the answer of a label batch over `n` targets: one label per
/// target, in order, each read from that target's reply alone.
pub open spec fn labels_answer(n: nat, replies: Seq<CallReply>, out: Seq<String>) -> bool {
    &&& out.len() == n
    &&& forall|i: int| 0 <= i < n ==> #[trigger] out[i]@ == slot_label(replies, i)
}

/// Reads balances, symbols and names of many token contracts at once.
///
/// The calls themselves are made by the host: for target `i` it sends the
/// call data of `balance_call_data`, `symbol_call_data` or `name_call_data`
/// and hands the reply back at position `i`.
#[derive(Debug)]
pub struct PortfolioReader {
    initialized: bool,
}

impl PortfolioReader {
    /// A reader as deployed, not yet initialized.
    pub fn new() -> (r: PortfolioReader)
        ensures
            !r.is_initialized_spec(),
    {
        PortfolioReader { initialized: false }
    }

    /// A reader whose flag was kept elsewhere (in contract storage) between
    /// calls.
    pub fn from_flag(initialized: bool) -> (r: PortfolioReader)
        ensures
            r.is_initialized_spec() == initialized,
    {
        PortfolioReader { initialized }
    }

    pub closed spec fn is_initialized_spec(&self) -> bool {
        self.initialized
    }

    /// Whether `initialize` has succeeded.
    pub fn is_initialized(&self) -> (r: bool)
        ensures
            r == self.is_initialized_spec(),
    {
        self.initialized
    }

    /// Sets the flag the first time; fails, changing nothing, every later time.
    pub fn initialize(&mut self) -> (r: Result<(), ReaderError>)
        ensures
            (final(self).is_initialized_spec(), r) == initialize_step(old(self).is_initialized_spec()),
    {
        if self.initialized {
            return Err(ReaderError::AlreadyInitialized);
        }
        self.initialized = true;
        Ok(())
    }

    /// The balance of `user` at each token, in the order of `tokens`; zero
    /// where the call failed or its reply does not decode.
    pub fn get_balances(&self, user: Address, tokens: Vec<Address>, replies: Vec<CallReply>) -> (r: Vec<Amount>)
        ensures
            balances_answer(tokens@.len(), replies@, r@),
    {
        let mut out: Vec<Amount> = Vec::new();
        let mut i: usize = 0;
        while i < tokens.len()
            invariant
                0 <= i <= tokens@.len(),
                balances_answer(i as nat, replies@, out@),
            decreases tokens@.len() - i,
        {
            let a = if i < replies.len() {
                decode_balance(&replies[i])
            } else {
                Amount::zero()
            };
            out.push(a);
            i = i + 1;
        }
        out
    }

    /// The symbol of each token, in the order of `tokens`; empty where the
    /// call failed or its reply does not decode.
    pub fn get_symbols(&self, tokens: Vec<Address>, replies: Vec<CallReply>) -> (r: Vec<String>)
        ensures
            labels_answer(tokens@.len(), replies@, r@),
    {
        collect_labels(tokens.len(), &replies)
    }

    /// The name of each token, in the order of `tokens`; empty where the call
    /// failed or its reply does not decode.
    pub fn get_names(&self, tokens: Vec<Address>, replies: Vec<CallReply>) -> (r: Vec<String>)
        ensures
            labels_answer(tokens@.len(), replies@, r@),
    {
        collect_labels(tokens.len(), &replies)
    }
}

fn collect_labels(n: usize, replies: &Vec<CallReply>) -> (r: Vec<String>)
    ensures
        labels_answer(n as nat, replies@, r@),
{
    let mut out: Vec<String> = Vec::new();
    let mut i: usize = 0;
    while i < n
        invariant
            0 <= i <= n,
            labels_answer(i as nat, replies@, out@),
        decreases n - i,
    {
        let s = if i < replies.len() {
            decode_label(&replies[i])
        } else {
            String::new()
        };
        out.push(s);
        i = i + 1;
    }
    out
}

/// Initialization succeeds from a fresh reader, and from then on every call
/// fails with `AlreadyInitialized` and leaves the flag as it is.
pub proof fn lemma_initialize_once(initialized: bool)
    ensures
        initialize_step(false) == (true, Ok::<(), ReaderError>(())),
        initialize_step(initialize_step(initialized).0) == (true, Err::<(), ReaderError>(
            ReaderError::AlreadyInitialized,
        )),
        initialize_step(true).0 == true,
{
}

/// A target that holds no code (its reply is empty return data) or that
/// reverts reads as a zero balance and an empty label.
pub proof fn lemma_unreadable_target_reads_as_default(reply: CallReply)
    requires
        match reply {
            Ok(data) => data@.len() == 0,
            Err(_) => true,
        },
    ensures
        amount_of_reply(reply) == 0,
        label_of_reply(reply) == Seq::<char>::empty(),
{
}

/// Changing the reply at one position changes no other position of the
/// answer, for balances and labels alike.
pub proof fn lemma_slots_independent(
    n: nat,
    replies1: Seq<CallReply>,
    replies2: Seq<CallReply>,
    k: int,
    amounts1: Seq<Amount>,
    amounts2: Seq<Amount>,
    labels1: Seq<String>,
    labels2: Seq<String>,
)
    requires
        replies1.len() == replies2.len(),
        forall|j: int| 0 <= j < replies1.len() && j != k ==> replies1[j] == replies2[j],
        balances_answer(n, replies1, amounts1),
        balances_answer(n, replies2, amounts2),
        labels_answer(n, replies1, labels1),
        labels_answer(n, replies2, labels2),
    ensures
        forall|j: int| 0 <= j < n && j != k ==> amounts1[j]@ == amounts2[j]@,
        forall|j: int| 0 <= j < n && j != k ==> labels1[j]@ == labels2[j]@,
{
    assert forall|j: int| 0 <= j < n && j != k implies amounts1[j]@ == amounts2[j]@ by {
        assert(amounts1[j]@ == slot_amount(replies1, j));
        assert(amounts2[j]@ == slot_amount(replies2, j));
    }
    assert forall|j: int| 0 <= j < n && j != k implies labels1[j]@ == labels2[j]@ by {
        assert(labels1[j]@ == slot_label(replies1, j));
        assert(labels2[j]@ == slot_label(replies2, j));
    }
}

/// The same batch on the same replies gives the same answer.
pub proof fn lemma_batch_idempotent(
    n: nat,
    replies: Seq<CallReply>,
    amounts1: Seq<Amount>,
    amounts2: Seq<Amount>,
    labels1: Seq<String>,
    labels2: Seq<String>,
)
    requires
        balances_answer(n, replies, amounts1),
        balances_answer(n, replies, amounts2),
        labels_answer(n, replies, labels1),
        labels_answer(n, replies, labels2),
    ensures
        amounts1.map_values(|a: Amount| a@) == amounts2.map_values(|a: Amount| a@),
        labels1.map_values(|s: String| s@) == labels2.map_values(|s: String| s@),
{
    assert forall|j: int| 0 <= j < n implies amounts1[j]@ == amounts2[j]@ by {
        assert(amounts1[j]@ == slot_amount(replies, j));
        assert(amounts2[j]@ == slot_amount(replies, j));
    }
    assert forall|j: int| 0 <= j < n implies labels1[j]@ == labels2[j]@ by {
        assert(labels1[j]@ == slot_label(replies, j));
        assert(labels2[j]@ == slot_label(replies, j));
    }
    assert(amounts1.map_values(|a: Amount| a@) =~= amounts2.map_values(|a: Amount| a@));
    assert(labels1.map_values(|s: String| s@) =~= labels2.map_values(|s: String| s@));
}

/// An empty list of targets gives an empty answer, whatever the replies.
pub proof fn lemma_empty_batch(replies: Seq<CallReply>, amounts: Seq<Amount>, labels: Seq<String>)
    requires
        balances_answer(0, replies, amounts),
        labels_answer(0, replies, labels),
    ensures
        amounts.len() == 0,
        labels.len() == 0,
{
}

} // verus!
