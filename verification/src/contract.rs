//! The operations of the ledger: instantiation, the two commands and the
//! queries. Each is a function of the state and its arguments alone.

use crate::error::ContractError;
use crate::error::StdError;
use crate::math::checked_add;
use crate::math::checked_sub;
use crate::math::fee_of;
use crate::math::first_share;
use crate::math::remainder_of;
use crate::math::second_share;
use crate::math::split_amounts;
use crate::msg::coins;
use crate::msg::is_payout;
use crate::msg::single_native;
use crate::msg::AddrInput;
use crate::msg::BankMsg;
use crate::msg::Coin;
use crate::msg::Event;
use crate::msg::ExecuteMsg;
use crate::msg::FeeResponse;
use crate::msg::InstantiateMsg;
use crate::msg::MessageInfo;
use crate::msg::OwnerResponse;
use crate::msg::QueryMsg;
use crate::msg::QueryResponse;
use crate::msg::Response;
use crate::msg::WalletResponse;
use crate::state::balance_of;
use crate::state::credited;
use crate::state::debited;
use crate::state::Config;
use crate::state::State;
use vstd::prelude::*;

verus! {

/// The error of a result, or `None` where it has none.
pub open spec fn error_of<T>(r: Result<T, ContractError>) -> Option<ContractError> {
    match r {
        Ok(_) => None,
        Err(e) => Some(e),
    }
}

/// The table after a split: the first destination credited with its share,
/// then the second, then the fee recipient with the fee.
pub open spec fn split_table(
    table: Map<Seq<char>, u128>,
    fee_addr: Seq<char>,
    addr1: Seq<char>,
    addr2: Seq<char>,
    deposit: nat,
    fee_percent: nat,
) -> Map<Seq<char>, u128> {
    let after1 = credited(table, addr1, first_share(deposit, fee_percent));
    let after2 = credited(after1, addr2, second_share(deposit, fee_percent));
    credited(after2, fee_addr, fee_of(deposit, fee_percent))
}

/// The error of one credit: an overflow, with the balance and the amount,
/// where their sum leaves 128 bits, and `None` where it fits.
pub open spec fn credit_error(table: Map<Seq<char>, u128>, addr: Seq<char>, amount: nat) -> Option<
    ContractError,
> {
    if balance_of(table, addr) + amount > u128::MAX {
        Some(
            ContractError::Std(
                StdError::Overflow {
                    operand1: balance_of(table, addr) as u128,
                    operand2: amount as u128,
                },
            ),
        )
    } else {
        None
    }
}

/// The error of the three credits of a split, made in turn: that of the
/// first one that does not fit, and `None` where all three fit.
pub open spec fn credits_error(
    table: Map<Seq<char>, u128>,
    fee_addr: Seq<char>,
    addr1: Seq<char>,
    addr2: Seq<char>,
    deposit: nat,
    fee_percent: nat,
) -> Option<ContractError> {
    let after1 = credited(table, addr1, first_share(deposit, fee_percent));
    let after2 = credited(after1, addr2, second_share(deposit, fee_percent));
    if credit_error(table, addr1, first_share(deposit, fee_percent)) is Some {
        credit_error(table, addr1, first_share(deposit, fee_percent))
    } else if credit_error(after1, addr2, second_share(deposit, fee_percent)) is Some {
        credit_error(after1, addr2, second_share(deposit, fee_percent))
    } else {
        credit_error(after2, fee_addr, fee_of(deposit, fee_percent))
    }
}

/// The error with which a split ends, or `None` where it succeeds. The checks
/// are made in this order: the funds, the configuration, the fee, the two
/// addresses, the three credits.
pub open spec fn split_error(
    config: Option<Config>,
    table: Map<Seq<char>, u128>,
    funds: Seq<Coin>,
    target_addr1: AddrInput,
    target_addr2: AddrInput,
) -> Option<ContractError> {
    if !single_native(funds) {
        Some(ContractError::InvalidTokenTransfer)
    } else if config is None {
        Some(ContractError::Std(StdError::NotFound))
    } else if funds[0].amount * config.unwrap().fee_percent > u128::MAX {
        Some(ContractError::InvalidParams)
    } else if !target_addr1.valid || !target_addr2.valid {
        Some(ContractError::Std(StdError::InvalidAddress))
    } else {
        credits_error(
            table,
            config.unwrap().cw20_addr@,
            target_addr1.addr@,
            target_addr2.addr@,
            funds[0].amount as nat,
            config.unwrap().fee_percent as nat,
        )
    }
}

/// Whether `event` records a split of `deposit` at `fee_percent`, sent by
/// `from`, between `addr1` and `addr2`.
pub open spec fn is_split_event(
    event: Event,
    from: Seq<char>,
    addr1: Seq<char>,
    addr2: Seq<char>,
    deposit: nat,
    fee_percent: nat,
) -> bool {
    event matches Event::SplitCoins {
        from: sender,
        amount,
        target_addr1,
        target_addr1_amount,
        target_addr2,
        target_addr2_amount,
        fees_collected,
    } && sender@ == from && amount == remainder_of(deposit, fee_percent) && target_addr1@ == addr1
        && target_addr1_amount == first_share(deposit, fee_percent) && target_addr2@ == addr2
        && target_addr2_amount == second_share(deposit, fee_percent) && fees_collected == fee_of(
        deposit,
        fee_percent,
    )
}

/// What a split does, for every input: with which error it ends if it ends
/// with one, and else the new table and the response. The configuration
/// stays, and so does the whole state where the split fails.
pub open spec fn split_coins_post(
    pre: State,
    info: MessageInfo,
    target_addr1: AddrInput,
    target_addr2: AddrInput,
    post: State,
    r: Result<Response, ContractError>,
) -> bool {
    &&& split_error(pre.config, pre.wallets@, info.funds@, target_addr1, target_addr2)
        == error_of(r)
    &&& match r {
        Ok(resp) => {
            &&& post.config == pre.config
            &&& post.wallets@ == split_table(
                pre.wallets@,
                pre.config.unwrap().cw20_addr@,
                target_addr1.addr@,
                target_addr2.addr@,
                info.funds[0].amount as nat,
                pre.config.unwrap().fee_percent as nat,
            )
            &&& resp.messages@.len() == 0
            &&& is_split_event(
                resp.event,
                info.sender@,
                target_addr1.addr@,
                target_addr2.addr@,
                info.funds[0].amount as nat,
                pre.config.unwrap().fee_percent as nat,
            )
        },
        Err(_) => post == pre,
    }
}

/// Splits the deposit attached to `info`: the fee goes to the fee recipient,
/// the rest in two halves to the two destinations, the odd unit to the first.
/// Either all three balances are raised or the state stays as it was. No
/// transfer is asked for.
pub fn execute_split_coins(
    state: &mut State,
    info: MessageInfo,
    target_addr1: AddrInput,
    target_addr2: AddrInput,
) -> (r: Result<Response, ContractError>)
    requires
        old(state).wf(),
    ensures
        split_coins_post(*old(state), info, target_addr1, target_addr2, *final(state), r),
{
    let native = String::from_str("usei");
    if info.funds.len() != 1 || !(info.funds[0].denom == native) {
        return Err(ContractError::InvalidTokenTransfer);
    }
    let (fee_addr, fee_percent) = match &state.config {
        Some(config) => (config.cw20_addr.clone(), config.fee_percent),
        None => {
            return Err(ContractError::Std(StdError::NotFound));
        },
    };
    let split = match split_amounts(info.funds[0].amount, fee_percent) {
        Ok(split) => split,
        Err(e) => {
            return Err(e);
        },
    };
    if !target_addr1.valid || !target_addr2.valid {
        return Err(ContractError::Std(StdError::InvalidAddress));
    }
    let addr1 = target_addr1.addr;
    let addr2 = target_addr2.addr;

    // Every new balance is computed before any is stored.
    let old1 = state.wallets.balance(addr1.as_str());
    let new1 = match checked_add(old1, split.share1) {
        Ok(sum) => sum,
        Err(_) => {
            return Err(
                ContractError::Std(StdError::Overflow { operand1: old1, operand2: split.share1 }),
            );
        },
    };
    let old2 = if addr2 == addr1 {
        new1
    } else {
        state.wallets.balance(addr2.as_str())
    };
    let new2 = match checked_add(old2, split.share2) {
        Ok(sum) => sum,
        Err(_) => {
            return Err(
                ContractError::Std(StdError::Overflow { operand1: old2, operand2: split.share2 }),
            );
        },
    };
    let old3 = if fee_addr == addr2 {
        new2
    } else if fee_addr == addr1 {
        new1
    } else {
        state.wallets.balance(fee_addr.as_str())
    };
    let new3 = match checked_add(old3, split.fee) {
        Ok(sum) => sum,
        Err(_) => {
            return Err(
                ContractError::Std(StdError::Overflow { operand1: old3, operand2: split.fee }),
            );
        },
    };

    state.wallets.save(addr1.clone(), new1);
    state.wallets.save(addr2.clone(), new2);
    state.wallets.save(fee_addr, new3);

    Ok(
        Response {
            messages: Vec::new(),
            event: Event::SplitCoins {
                from: info.sender,
                amount: split.remainder,
                target_addr1: addr1,
                target_addr1_amount: split.share1,
                target_addr2: addr2,
                target_addr2_amount: split.share2,
                fees_collected: split.fee,
            },
        },
    )
}

/// The amount that a withdrawal takes: the one asked for, or the whole
/// balance where none is named.
pub open spec fn withdraw_amount(
    table: Map<Seq<char>, u128>,
    sender: Seq<char>,
    amount: Option<u128>,
) -> nat {
    match amount {
        Some(a) => a as nat,
        None => balance_of(table, sender),
    }
}

/// The error with which a withdrawal ends, or `None` where it succeeds. A
/// request for zero is refused first; then a sender without an entry, and a
/// request that exceeds the balance, both as insufficient funds.
pub open spec fn withdraw_error(
    table: Map<Seq<char>, u128>,
    sender: Seq<char>,
    amount: Option<u128>,
) -> Option<ContractError> {
    if amount == Some(0u128) {
        Some(ContractError::InvalidParams)
    } else if !table.contains_key(sender) {
        Some(ContractError::InsufficientFunds)
    } else if withdraw_amount(table, sender, amount) > balance_of(table, sender) {
        Some(ContractError::InsufficientFunds)
    } else {
        None
    }
}

/// What a withdrawal does, for every input: with which error it ends if it
/// ends with one, and else the one balance that is lowered, the one transfer
/// that is asked for and the event. Where it fails the state stays as it was.
pub open spec fn withdraw_coins_post(
    pre: State,
    info: MessageInfo,
    amount: Option<u128>,
    post: State,
    r: Result<Response, ContractError>,
) -> bool {
    &&& withdraw_error(pre.wallets@, info.sender@, amount) == error_of(r)
    &&& match r {
        Ok(resp) => {
            let taken = withdraw_amount(pre.wallets@, info.sender@, amount);
            &&& post.config == pre.config
            &&& post.wallets@ == debited(pre.wallets@, info.sender@, taken)
            &&& resp.messages@.len() == 1
            &&& is_payout(resp.messages@[0], info.sender@, taken as u128)
            &&& resp.event matches Event::WithdrawCoins { addr, amount: recorded }
            &&& addr@ == info.sender@
            &&& recorded == taken
        },
        Err(_) => post == pre,
    }
}

/// Takes `amount`, or the whole balance where `amount` is `None`, from the
/// sender's balance and asks the host to pay it out to the sender. The entry
/// stays in the table, also at zero.
pub fn execute_withdraw_coins(state: &mut State, info: MessageInfo, amount: Option<u128>) -> (r:
    Result<Response, ContractError>)
    ensures
        withdraw_coins_post(*old(state), info, amount, *final(state), r),
{
    match amount {
        Some(a) => {
            if a == 0 {
                return Err(ContractError::InvalidParams);
            }
        },
        None => {},
    }
    let balance = match state.wallets.load(info.sender.as_str()) {
        Some(balance) => balance,
        None => {
            return Err(ContractError::InsufficientFunds);
        },
    };
    let taken = match amount {
        Some(a) => a,
        None => balance,
    };
    let left = match checked_sub(balance, taken) {
        Ok(left) => left,
        Err(_) => {
            return Err(ContractError::InsufficientFunds);
        },
    };
    state.wallets.save(info.sender.clone(), left);

    let mut messages = Vec::new();
    messages.push(BankMsg::Send { to_address: info.sender.clone(), amount: coins(taken, "usei") });
    Ok(Response { messages, event: Event::WithdrawCoins { addr: info.sender, amount: taken } })
}

/// The fee that an instantiation asks for: zero where it names none.
pub open spec fn requested_fee(msg: InstantiateMsg) -> u128 {
    match msg.fee_percent {
        Some(fee_percent) => fee_percent,
        None => 0,
    }
}

/// The administrator that an instantiation sets: the owner it names, where it
/// names one and the address is valid, and the sender otherwise.
pub open spec fn resolved_owner(info: MessageInfo, msg: InstantiateMsg) -> Seq<char> {
    match msg.owner {
        Some(owner) => if owner.valid {
            owner.addr@
        } else {
            info.sender@
        },
        None => info.sender@,
    }
}

/// The error with which an instantiation ends, or `None` where it succeeds:
/// the fee is checked before the fee recipient's address.
pub open spec fn instantiate_error(msg: InstantiateMsg) -> Option<ContractError> {
    if requested_fee(msg) > 100 {
        Some(ContractError::InvalidParams)
    } else if !msg.cw20_addr.valid {
        Some(ContractError::Std(StdError::InvalidAddress))
    } else {
        None
    }
}

/// What an instantiation does, for every input: with which error it ends if
/// it ends with one, and else the configuration that it stores and the
/// event. The balances stay, and so does the whole state where it fails.
pub open spec fn instantiate_post(
    pre: State,
    info: MessageInfo,
    msg: InstantiateMsg,
    post: State,
    r: Result<Response, ContractError>,
) -> bool {
    &&& instantiate_error(msg) == error_of(r)
    &&& match r {
        Ok(resp) => {
            &&& post.wallets == pre.wallets
            &&& post.config matches Some(config)
            &&& config.owner@ == resolved_owner(info, msg)
            &&& config.cw20_addr@ == msg.cw20_addr.addr@
            &&& config.fee_percent == requested_fee(msg)
            &&& resp.messages@.len() == 0
            &&& resp.event matches Event::Instantiate { owner, cw20_addr, fee_percent }
            &&& owner@ == resolved_owner(info, msg)
            &&& cw20_addr@ == msg.cw20_addr.addr@
            &&& fee_percent == requested_fee(msg)
        },
        Err(_) => post == pre,
    }
}

/// Stores the configuration: the administrator, the fee recipient and a fee
/// of at most 100 percent. It creates no balance.
pub fn instantiate(state: &mut State, info: MessageInfo, msg: InstantiateMsg) -> (r: Result<
    Response,
    ContractError,
>)
    ensures
        instantiate_post(*old(state), info, msg, *final(state), r),
        old(state).wf() ==> final(state).wf(),
        r is Ok ==> final(state).wf(),
{
    let fee_percent = match msg.fee_percent {
        Some(fee_percent) => fee_percent,
        None => 0,
    };
    if fee_percent > 100 {
        return Err(ContractError::InvalidParams);
    }
    let owner = match msg.owner {
        Some(owner) => if owner.valid {
            owner.addr
        } else {
            info.sender
        },
        None => info.sender,
    };
    if !msg.cw20_addr.valid {
        return Err(ContractError::Std(StdError::InvalidAddress));
    }
    let cw20_addr = msg.cw20_addr.addr;
    state.config = Some(
        Config { owner: owner.clone(), cw20_addr: cw20_addr.clone(), fee_percent },
    );
    Ok(
        Response {
            messages: Vec::new(),
            event: Event::Instantiate { owner, cw20_addr, fee_percent },
        },
    )
}

/// Carries out a command: a split or a withdrawal. Only a split reads the
/// fee, so only a split needs it to be a percentage.
pub fn execute(state: &mut State, info: MessageInfo, msg: ExecuteMsg) -> (r: Result<
    Response,
    ContractError,
>)
    requires
        msg is SplitCoins ==> old(state).wf(),
    ensures
        old(state).wf() ==> final(state).wf(),
        match msg {
            ExecuteMsg::SplitCoins { target_addr1, target_addr2 } => split_coins_post(
                *old(state),
                info,
                target_addr1,
                target_addr2,
                *final(state),
                r,
            ),
            ExecuteMsg::WithdrawCoins { amount } => withdraw_coins_post(
                *old(state),
                info,
                amount,
                *final(state),
                r,
            ),
        },
{
    match msg {
        ExecuteMsg::SplitCoins { target_addr1, target_addr2 } => execute_split_coins(
            state,
            info,
            target_addr1,
            target_addr2,
        ),
        ExecuteMsg::WithdrawCoins { amount } => execute_withdraw_coins(state, info, amount),
    }
}

/// The administrator, or `NotFound` before instantiation.
pub fn query_owner(state: &State) -> (r: Result<OwnerResponse, StdError>)
    ensures
        match r {
            Ok(resp) => state.config is Some && resp.owner@ == state.config.unwrap().owner@,
            Err(e) => state.config is None && e == StdError::NotFound,
        },
{
    match &state.config {
        Some(config) => Ok(OwnerResponse { owner: config.owner.clone() }),
        None => Err(StdError::NotFound),
    }
}

/// The balance of `addr`: zero where the table has no entry for it. It never
/// fails.
pub fn query_wallet(state: &State, addr: String) -> (r: Result<WalletResponse, StdError>)
    ensures
        r matches Ok(resp) && resp.addr@ == addr@ && resp.amount == balance_of(
            state.wallets@,
            addr@,
        ),
{
    let amount = state.wallets.balance(addr.as_str());
    Ok(WalletResponse { addr, amount })
}

/// The fee recipient and the fee in percent, or `NotFound` before
/// instantiation.
pub fn query_fee(state: &State) -> (r: Result<FeeResponse, StdError>)
    ensures
        match r {
            Ok(resp) => state.config is Some && resp.addr@ == state.config.unwrap().cw20_addr@
                && resp.fee_percent == state.config.unwrap().fee_percent,
            Err(e) => state.config is None && e == StdError::NotFound,
        },
{
    match &state.config {
        Some(config) => Ok(
            FeeResponse { addr: config.cw20_addr.clone(), fee_percent: config.fee_percent },
        ),
        None => Err(StdError::NotFound),
    }
}

/// Whether `r` answers the query `msg` on `state`: the variant is that of the
/// query and its fields are read from the state, and the one error is
/// `NotFound`, for the owner and the fee before instantiation.
pub open spec fn query_post(state: State, msg: QueryMsg, r: Result<QueryResponse, StdError>) -> bool {
    match msg {
        QueryMsg::GetOwner {} => match r {
            Ok(resp) => {
                &&& state.config is Some
                &&& resp matches QueryResponse::Owner(owner)
                &&& owner.owner@ == state.config.unwrap().owner@
            },
            Err(e) => state.config is None && e == StdError::NotFound,
        },
        QueryMsg::GetWallet { addr } => {
            &&& r matches Ok(QueryResponse::Wallet(wallet))
            &&& wallet.addr@ == addr@
            &&& wallet.amount == balance_of(state.wallets@, addr@)
        },
        QueryMsg::GetFee {} => match r {
            Ok(resp) => {
                &&& state.config is Some
                &&& resp matches QueryResponse::Fee(fee)
                &&& fee.addr@ == state.config.unwrap().cw20_addr@
                &&& fee.fee_percent == state.config.unwrap().fee_percent
            },
            Err(e) => state.config is None && e == StdError::NotFound,
        },
    }
}

/// Answers a query. It changes nothing.
pub fn query(state: &State, msg: QueryMsg) -> (r: Result<QueryResponse, StdError>)
    ensures
        query_post(*state, msg, r),
{
    match msg {
        QueryMsg::GetOwner {} => match query_owner(state) {
            Ok(resp) => Ok(QueryResponse::Owner(resp)),
            Err(e) => Err(e),
        },
        QueryMsg::GetWallet { addr } => match query_wallet(state, addr) {
            Ok(resp) => Ok(QueryResponse::Wallet(resp)),
            Err(e) => Err(e),
        },
        QueryMsg::GetFee {} => match query_fee(state) {
            Ok(resp) => Ok(QueryResponse::Fee(resp)),
            Err(e) => Err(e),
        },
    }
}

} // verus!
