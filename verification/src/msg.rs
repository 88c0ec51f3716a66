//! The commands that the ledger accepts and the answers it gives.

use vstd::prelude::*;

verus! {

/// An address string as a caller wrote it, with the host's verdict on its
/// syntax. The ledger checks no address itself.
#[derive(Clone, Debug, PartialEq, Eq)]
pub struct AddrInput {
    pub addr: String,
    /// Whether the host accepted `addr` as an address.
    pub valid: bool,
}

/// An amount of one denomination.
#[derive(Clone, Debug, PartialEq, Eq)]
pub struct Coin {
    pub denom: String,
    pub amount: u128,
}

/// One coin: `amount` of `denom`.
pub fn coin(amount: u128, denom: &str) -> (c: Coin)
    ensures
        c.denom@ == denom@,
        c.amount == amount,
{
    Coin { denom: String::from_str(denom), amount }
}

/// A set of coins of one denomination: `amount` of `denom`, and nothing else.
pub fn coins(amount: u128, denom: &str) -> (v: Vec<Coin>)
    ensures
        v@.len() == 1,
        v@[0].denom@ == denom@,
        v@[0].amount == amount,
{
    let mut v = Vec::new();
    v.push(coin(amount, denom));
    v
}

/// Who sent a command, and the funds attached to it.
#[derive(Clone, Debug, PartialEq, Eq)]
pub struct MessageInfo {
    pub sender: String,
    pub funds: Vec<Coin>,
}

#[derive(Clone, Debug, PartialEq, Eq)]
pub struct InstantiateMsg {
    /// The administrator; the sender where it is absent or not valid.
    pub owner: Option<AddrInput>,
    /// The fee recipient.
    pub cw20_addr: AddrInput,
    /// The fee in percent; zero where it is absent.
    pub fee_percent: Option<u128>,
}

#[derive(Clone, Debug, PartialEq, Eq)]
pub enum ExecuteMsg {
    /// Split the attached deposit between the two addresses.
    SplitCoins { target_addr1: AddrInput, target_addr2: AddrInput },
    /// Pay out `amount` of the sender's balance, or all of it.
    WithdrawCoins { amount: Option<u128> },
}

#[derive(Clone, Debug, PartialEq, Eq)]
pub enum QueryMsg {
    GetOwner {},
    GetWallet { addr: String },
    GetFee {},
}

#[derive(Clone, Debug, PartialEq, Eq)]
pub struct OwnerResponse {
    pub owner: String,
}

#[derive(Clone, Debug, PartialEq, Eq)]
pub struct WalletResponse {
    pub addr: String,
    pub amount: u128,
}

#[derive(Clone, Debug, PartialEq, Eq)]
pub struct FeeResponse {
    pub addr: String,
    pub fee_percent: u128,
}

/// The answer to a query, one variant for each kind of query.
#[derive(Clone, Debug, PartialEq, Eq)]
pub enum QueryResponse {
    Owner(OwnerResponse),
    Wallet(WalletResponse),
    Fee(FeeResponse),
}

/// A transfer that the ledger asks the host to make.
#[derive(Clone, Debug, PartialEq, Eq)]
pub enum BankMsg {
    Send { to_address: String, amount: Vec<Coin> },
}

/// What an operation did, for the record.
#[derive(Clone, Debug, PartialEq, Eq)]
pub enum Event {
    Instantiate { owner: String, cw20_addr: String, fee_percent: u128 },
    SplitCoins {
        from: String,
        /// The deposit less the fee.
        amount: u128,
        target_addr1: String,
        target_addr1_amount: u128,
        target_addr2: String,
        target_addr2_amount: u128,
        fees_collected: u128,
    },
    WithdrawCoins { addr: String, amount: u128 },
}

/// The result of a successful operation: the transfers to make and the event.
#[derive(Clone, Debug, PartialEq, Eq)]
pub struct Response {
    pub messages: Vec<BankMsg>,
    pub event: Event,
}

/// The denomination of the native asset, the only one the ledger accepts and
/// pays out.
pub open spec fn native_denom() -> Seq<char> {
    "usei"@
}

/// Whether the funds are exactly one entry of the native denomination.
pub open spec fn single_native(funds: Seq<Coin>) -> bool {
    funds.len() == 1 && funds[0].denom@ == native_denom()
}

/// Whether a message tells the host to send `amount` of the native asset, and
/// nothing else, to `to`.
pub open spec fn is_payout(msg: BankMsg, to: Seq<char>, amount: u128) -> bool {
    msg matches BankMsg::Send { to_address, amount: coins } && to_address@ == to && coins@.len()
        == 1 && coins@[0].denom@ == native_denom() && coins@[0].amount == amount
}

} // verus!
