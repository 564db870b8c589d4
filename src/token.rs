use crate::address::Address;
use crate::amount::{amount_modulus, Amount};
use vstd::prelude::*;

verus! {

/// The balance that a list of entries with distinct accounts records for
/// `account`: the amount of its entry, or zero where it has none.
pub open spec fn entry_balance(entries: Seq<(Address, Amount)>, account: Seq<u8>) -> nat {
    if exists|i: int| 0 <= i < entries.len() && entries[i].0@ == account {
        entries[choose|i: int| 0 <= i < entries.len() && entries[i].0@ == account].1@
    } else {
        0
    }
}

/// No account has two entries.
pub open spec fn distinct_accounts(entries: Seq<(Address, Amount)>) -> bool {
    forall|i: int, j: int|
        0 <= i < entries.len() && 0 <= j < entries.len() && i != j ==> entries[i].0@ != entries[j].0@
}

proof fn lemma_entry_balance_at(entries: Seq<(Address, Amount)>, i: int)
    requires
        distinct_accounts(entries),
        0 <= i < entries.len(),
    ensures
        entry_balance(entries, entries[i].0@) == entries[i].1@,
{
    let k = entries[i].0@;
    assert(0 <= i < entries.len() && entries[i].0@ == k);
    let j = choose|j: int| 0 <= j < entries.len() && entries[j].0@ == k;
    assert(i == j);
}

/// One mint on a balance and a supply: `amount` is added to both, modulo
/// 2^256; gives the new balance and the new supply.
pub fn mint_step(balance: Amount, supply: Amount, amount: Amount) -> (r: (Amount, Amount))
    ensures
        r.0@ == (balance@ + amount@) % amount_modulus(),
        r.1@ == (supply@ + amount@) % amount_modulus(),
{
    (balance.wrapping_add(amount), supply.wrapping_add(amount))
}

/// A token ledger used as the thing a reader queries: a balance per account,
/// a total supply, a name and a symbol, and a mint that anyone may call.
#[derive(Debug)]
pub struct MockToken {
    balances: Vec<(Address, Amount)>,
    total_supply: Amount,
    name: String,
    symbol: String,
}

impl MockToken {
    pub closed spec fn wf(&self) -> bool {
        distinct_accounts(self.balances@)
    }

    /// The balance the ledger holds for an account.
    pub closed spec fn balance_spec(&self, account: Seq<u8>) -> nat {
        entry_balance(self.balances@, account)
    }

    pub closed spec fn total_supply_spec(&self) -> nat {
        self.total_supply@
    }

    pub closed spec fn name_spec(&self) -> Seq<char> {
        self.name@
    }

    pub closed spec fn symbol_spec(&self) -> Seq<char> {
        self.symbol@
    }

    /// A ledger with no balances and a zero total supply.
    pub fn new(name: String, symbol: String) -> (r: MockToken)
        ensures
            r.wf(),
            forall|a: Seq<u8>| r.balance_spec(a) == 0,
            r.total_supply_spec() == 0,
            r.name_spec() == name@,
            r.symbol_spec() == symbol@,
    {
        MockToken { balances: Vec::new(), total_supply: Amount::zero(), name, symbol }
    }

    fn find(&self, account: &Address) -> (r: Option<usize>)
        ensures
            match r {
                Some(i) => i < self.balances@.len() && self.balances@[i as int].0@ == account@,
                None => forall|i: int|
                    0 <= i < self.balances@.len() ==> self.balances@[i].0@ != account@,
            },
    {
        let mut i: usize = 0;
        while i < self.balances.len()
            invariant
                0 <= i <= self.balances@.len(),
                forall|j: int| 0 <= j < i ==> self.balances@[j].0@ != account@,
            decreases self.balances@.len() - i,
        {
            if self.balances[i].0.same_as(account) {
                return Some(i);
            }
            i = i + 1;
        }
        None
    }

    /// The balance of `account`.
    pub fn balance_of(&self, account: Address) -> (r: Amount)
        requires
            self.wf(),
        ensures
            r@ == self.balance_spec(account@),
    {
        match self.find(&account) {
            Some(i) => {
                proof {
                    lemma_entry_balance_at(self.balances@, i as int);
                }
                self.balances[i].1
            },
            None => Amount::zero(),
        }
    }

    /// The token's name.
    pub fn name(&self) -> (r: String)
        ensures
            r@ == self.name_spec(),
    {
        self.name.clone()
    }

    /// The token's symbol.
    pub fn symbol(&self) -> (r: String)
        ensures
            r@ == self.symbol_spec(),
    {
        self.symbol.clone()
    }

    /// Adds `amount` to the balance of `to` and to the total supply, both
    /// modulo 2^256; every other balance stays as it was.
    pub fn mint(&mut self, to: Address, amount: Amount)
        requires
            old(self).wf(),
        ensures
            final(self).wf(),
            final(self).balance_spec(to@) == (old(self).balance_spec(to@) + amount@) % amount_modulus(),
            forall|a: Seq<u8>| a != to@ ==> final(self).balance_spec(a) == old(self).balance_spec(a),
            final(self).total_supply_spec() == (old(self).total_supply_spec() + amount@) % amount_modulus(),
            final(self).name_spec() == old(self).name_spec(),
            final(self).symbol_spec() == old(self).symbol_spec(),
    {
        let ghost before = self.balances@;
        match self.find(&to) {
            Some(i) => {
                let current = self.balances[i].1;
                proof {
                    lemma_entry_balance_at(before, i as int);
                }
                let (balance, supply) = mint_step(current, self.total_supply, amount);
                self.balances.set(i, (to, balance));
                self.total_supply = supply;
                proof {
                    let after = self.balances@;
                    assert(distinct_accounts(after));
                    lemma_entry_balance_at(after, i as int);
                    assert forall|a: Seq<u8>| a != to@ implies entry_balance(after, a) == entry_balance(before, a) by {
                        if exists|j: int| 0 <= j < before.len() && before[j].0@ == a {
                            let j = choose|j: int| 0 <= j < before.len() && before[j].0@ == a;
                            lemma_entry_balance_at(before, j);
                            assert(after[j] == before[j]);
                            lemma_entry_balance_at(after, j);
                        } else {
                            assert forall|j: int| 0 <= j < after.len() implies after[j].0@ != a by {
                                if j != i {
                                    assert(after[j] == before[j]);
                                }
                            }
                        }
                    }
                }
            },
            None => {
                proof {
                    assert(!(exists|j: int| 0 <= j < before.len() && before[j].0@ == to@));
                    assert((0 + amount@) == amount@);
                }
                let (balance, supply) = mint_step(Amount::zero(), self.total_supply, amount);
                self.balances.push((to, balance));
                self.total_supply = supply;
                proof {
                    let after = self.balances@;
                    let n = before.len() as int;
                    assert(distinct_accounts(after));
                    lemma_entry_balance_at(after, n);
                    assert forall|a: Seq<u8>| a != to@ implies entry_balance(after, a) == entry_balance(before, a) by {
                        if exists|j: int| 0 <= j < before.len() && before[j].0@ == a {
                            let j = choose|j: int| 0 <= j < before.len() && before[j].0@ == a;
                            lemma_entry_balance_at(before, j);
                            assert(after[j] == before[j]);
                            lemma_entry_balance_at(after, j);
                        } else {
                            assert forall|j: int| 0 <= j < after.len() implies after[j].0@ != a by {
                                if j < n {
                                    assert(after[j] == before[j]);
                                }
                            }
                        }
                    }
                }
            },
        }
    }

    /// The sum of everything minted, modulo 2^256.
    pub fn total_supply(&self) -> (r: Amount)
        ensures
            r@ == self.total_supply_spec(),
    {
        self.total_supply
    }
}

} // verus!
