//! What the ledger keeps between operations: the configuration and the table
//! of balances.

use vstd::hash_map::StringHashMap;
use vstd::prelude::*;

verus! {

/// The parameters that every split reads.
#[derive(Clone, Debug, PartialEq, Eq)]
pub struct Config {
    /// The administrator.
    pub owner: String,
    /// The address that is credited with the fee of every split.
    pub cw20_addr: String,
    /// The fee in percent of a deposit, at most 100.
    pub fee_percent: u128,
}

/// The balance that a table records for an address: zero where it records
/// none.
pub open spec fn balance_of(table: Map<Seq<char>, u128>, addr: Seq<char>) -> nat {
    if table.contains_key(addr) {
        table[addr] as nat
    } else {
        0
    }
}

/// The entry of an address, if the table has one.
pub open spec fn entry_of(table: Map<Seq<char>, u128>, addr: Seq<char>) -> Option<u128> {
    if table.contains_key(addr) {
        Some(table[addr])
    } else {
        None
    }
}

/// The table after `amount` was added to the balance of `addr`. It is meant
/// for amounts that keep the balance within 128 bits.
pub open spec fn credited(table: Map<Seq<char>, u128>, addr: Seq<char>, amount: nat) -> Map<
    Seq<char>,
    u128,
> {
    table.insert(addr, (balance_of(table, addr) + amount) as u128)
}

/// The table after `amount` was taken from the balance of `addr`. It is meant
/// for amounts up to that balance.
pub open spec fn debited(table: Map<Seq<char>, u128>, addr: Seq<char>, amount: nat) -> Map<
    Seq<char>,
    u128,
> {
    table.insert(addr, (balance_of(table, addr) - amount) as u128)
}

/// The table of balances, from address to amount. An address without an entry
/// has a balance of zero; an entry is never removed.
pub struct Wallets {
    table: StringHashMap<u128>,
}

impl View for Wallets {
    type V = Map<Seq<char>, u128>;

    closed spec fn view(&self) -> Map<Seq<char>, u128> {
        self.table@
    }
}

impl Wallets {
    /// A table without entries.
    pub fn new() -> (w: Wallets)
        ensures
            w@ == Map::<Seq<char>, u128>::empty(),
    {
        Wallets { table: StringHashMap::new() }
    }

    /// The entry of `addr`, or `None` where the table has none.
    pub fn load(&self, addr: &str) -> (r: Option<u128>)
        ensures
            r == entry_of(self@, addr@),
    {
        match self.table.get(addr) {
            Some(amount) => Some(*amount),
            None => None,
        }
    }

    /// The balance of `addr`: its entry, or zero where the table has none.
    pub fn balance(&self, addr: &str) -> (b: u128)
        ensures
            b == balance_of(self@, addr@),
    {
        match self.table.get(addr) {
            Some(amount) => *amount,
            None => 0,
        }
    }

    /// Sets the entry of `addr` to `amount`, whether or not it had one.
    pub fn save(&mut self, addr: String, amount: u128)
        ensures
            final(self)@ == old(self)@.insert(addr@, amount),
    {
        self.table.insert(addr, amount);
    }
}

/// All that persists: the configuration, once it is set, and the balances.
pub struct State {
    /// `None` until the ledger is instantiated.
    pub config: Option<Config>,
    pub wallets: Wallets,
}

impl State {
    /// Whether the stored fee is a percentage.
    pub open spec fn wf(&self) -> bool {
        self.config matches Some(c) ==> c.fee_percent <= 100
    }

    /// The state before instantiation: no configuration, no balances.
    pub fn new() -> (s: State)
        ensures
            s.config is None,
            s.wallets@ == Map::<Seq<char>, u128>::empty(),
            s.wf(),
    {
        State { config: None, wallets: Wallets::new() }
    }
}

} // verus!
