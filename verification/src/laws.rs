//! What holds of the operations taken together, proved from their contracts.

use crate::contract::error_of;
use crate::contract::query_post;
use crate::contract::credits_error;
use crate::contract::split_coins_post;
use crate::contract::split_table;
use crate::contract::withdraw_amount;
use crate::contract::withdraw_coins_post;
use crate::error::ContractError;
use crate::error::StdError;
use crate::math::fee_of;
use crate::math::first_share;
use crate::math::lemma_fee_bounded;
use crate::math::second_share;
use crate::msg::is_payout;
use crate::msg::AddrInput;
use crate::msg::MessageInfo;
use crate::msg::QueryMsg;
use crate::msg::QueryResponse;
use crate::msg::Response;
use crate::state::balance_of;
use crate::state::credited;
use crate::state::State;
use vstd::prelude::*;

verus! {

/// A split loses and creates nothing. For every deposit and every fee of at
/// most 100 percent, the fee is that percentage of the deposit rounded down,
/// the fee and the two shares add up to the deposit, and the first share is
/// the second or one more.
pub proof fn lemma_split_conserves(deposit: nat, fee_percent: nat)
    requires
        fee_percent <= 100,
    ensures
        fee_of(deposit, fee_percent) == deposit * fee_percent / 100,
        first_share(deposit, fee_percent) + second_share(deposit, fee_percent) + fee_of(
            deposit,
            fee_percent,
        ) == deposit,
        first_share(deposit, fee_percent) == second_share(deposit, fee_percent) || first_share(
            deposit,
            fee_percent,
        ) == second_share(deposit, fee_percent) + 1,
{
    lemma_fee_bounded(deposit, fee_percent);
}

/// Credits add up. Crediting an address with `a` and then with `b` leaves the
/// table that one credit of `a + b` leaves, as long as the balance stays
/// within 128 bits.
pub proof fn lemma_credit_accumulates(
    table: Map<Seq<char>, u128>,
    addr: Seq<char>,
    a: nat,
    b: nat,
)
    requires
        balance_of(table, addr) + a + b <= u128::MAX,
    ensures
        credited(credited(table, addr, a), addr, b) == credited(table, addr, a + b),
        balance_of(credited(credited(table, addr, a), addr, b), addr) == balance_of(table, addr)
            + a + b,
{
    assert(credited(credited(table, addr, a), addr, b) =~= credited(table, addr, a + b));
}

/// What a split gives to `addr`: the first share if it is the first
/// destination, the second share if it is the second, the fee if it is the
/// fee recipient, and all that apply where several do.
pub open spec fn split_gain(
    fee_addr: Seq<char>,
    addr1: Seq<char>,
    addr2: Seq<char>,
    deposit: nat,
    fee_percent: nat,
    addr: Seq<char>,
) -> nat {
    (if addr == addr1 {
        first_share(deposit, fee_percent)
    } else {
        0
    }) + (if addr == addr2 {
        second_share(deposit, fee_percent)
    } else {
        0
    }) + (if addr == fee_addr {
        fee_of(deposit, fee_percent)
    } else {
        0
    })
}

/// A split adds to what is there. After a split whose credits fit, the
/// balance of every address is its balance before and what the split gives
/// it; an address that is none of the three keeps its balance.
pub proof fn lemma_split_balance(
    table: Map<Seq<char>, u128>,
    fee_addr: Seq<char>,
    addr1: Seq<char>,
    addr2: Seq<char>,
    deposit: nat,
    fee_percent: nat,
    addr: Seq<char>,
)
    requires
        credits_error(table, fee_addr, addr1, addr2, deposit, fee_percent) is None,
    ensures
        balance_of(split_table(table, fee_addr, addr1, addr2, deposit, fee_percent), addr)
            == balance_of(table, addr) + split_gain(
            fee_addr,
            addr1,
            addr2,
            deposit,
            fee_percent,
            addr,
        ),
{
}

/// Splits accumulate. After two splits in a row that both succeed, the
/// balance of every address is its balance before the first and what each of
/// the two gives it.
pub proof fn lemma_splits_accumulate(
    pre: State,
    first: MessageInfo,
    first_addr1: AddrInput,
    first_addr2: AddrInput,
    first_result: Result<Response, ContractError>,
    between: State,
    second: MessageInfo,
    second_addr1: AddrInput,
    second_addr2: AddrInput,
    second_result: Result<Response, ContractError>,
    post: State,
    addr: Seq<char>,
)
    requires
        split_coins_post(pre, first, first_addr1, first_addr2, between, first_result),
        split_coins_post(between, second, second_addr1, second_addr2, post, second_result),
        first_result is Ok,
        second_result is Ok,
    ensures
        balance_of(post.wallets@, addr) == balance_of(pre.wallets@, addr) + split_gain(
            pre.config.unwrap().cw20_addr@,
            first_addr1.addr@,
            first_addr2.addr@,
            first.funds[0].amount as nat,
            pre.config.unwrap().fee_percent as nat,
            addr,
        ) + split_gain(
            pre.config.unwrap().cw20_addr@,
            second_addr1.addr@,
            second_addr2.addr@,
            second.funds[0].amount as nat,
            pre.config.unwrap().fee_percent as nat,
            addr,
        ),
{
    lemma_split_balance(
        pre.wallets@,
        pre.config.unwrap().cw20_addr@,
        first_addr1.addr@,
        first_addr2.addr@,
        first.funds[0].amount as nat,
        pre.config.unwrap().fee_percent as nat,
        addr,
    );
    lemma_split_balance(
        between.wallets@,
        pre.config.unwrap().cw20_addr@,
        second_addr1.addr@,
        second_addr2.addr@,
        second.funds[0].amount as nat,
        pre.config.unwrap().fee_percent as nat,
        addr,
    );
}

/// Withdrawing without an amount leaves no residual. Whatever the state, the
/// sender's balance is zero afterwards; the withdrawal succeeds exactly when
/// the sender has an entry, and then the whole balance is paid out.
pub proof fn lemma_withdraw_all_empties(
    pre: State,
    info: MessageInfo,
    post: State,
    r: Result<Response, ContractError>,
)
    requires
        withdraw_coins_post(pre, info, None, post, r),
    ensures
        balance_of(post.wallets@, info.sender@) == 0,
        r is Ok <==> pre.wallets@.contains_key(info.sender@),
        r matches Ok(resp) ==> is_payout(
            resp.messages@[0],
            info.sender@,
            balance_of(pre.wallets@, info.sender@) as u128,
        ),
{
}

/// A withdrawal is seen once by the next query. The balance that a query
/// reports for the sender right after a withdrawal is the balance before less
/// the amount taken where the withdrawal succeeded, and the balance before
/// where it failed.
pub proof fn lemma_withdraw_then_query(
    pre: State,
    info: MessageInfo,
    amount: Option<u128>,
    post: State,
    r: Result<Response, ContractError>,
    addr: String,
    q: Result<QueryResponse, StdError>,
)
    requires
        withdraw_coins_post(pre, info, amount, post, r),
        addr@ == info.sender@,
        query_post(post, QueryMsg::GetWallet { addr }, q),
    ensures
        q matches Ok(QueryResponse::Wallet(wallet)) && wallet.amount == (if r is Ok {
            balance_of(pre.wallets@, info.sender@) - withdraw_amount(
                pre.wallets@,
                info.sender@,
                amount,
            )
        } else {
            balance_of(pre.wallets@, info.sender@) as int
        }),
{
}

/// No balance, no withdrawal. A withdrawal by a sender without an entry, or
/// of more than the sender's balance, fails with `InsufficientFunds` and
/// leaves the state as it was. A request for zero is left out: it is refused
/// as `InvalidParams` before the balance is looked at.
pub proof fn lemma_withdraw_insufficient(
    pre: State,
    info: MessageInfo,
    amount: Option<u128>,
    post: State,
    r: Result<Response, ContractError>,
)
    requires
        withdraw_coins_post(pre, info, amount, post, r),
        amount != Some(0u128),
        !pre.wallets@.contains_key(info.sender@) || withdraw_amount(
            pre.wallets@,
            info.sender@,
            amount,
        ) > balance_of(pre.wallets@, info.sender@),
    ensures
        error_of(r) == Some(ContractError::InsufficientFunds),
        post == pre,
{
}

} // verus!
