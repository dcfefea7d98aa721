//! The operations of the escrow.
//!
//! Each operation is a step from the store as it is to the store as it
//! will be, with an outcome: a response that carries at most one transfer
//! instruction, or the error that refused the step. A step that is refused
//! leaves the store as it was. For each operation a function named `*_step`
//! or `*_outcome` says what the step is, and the executable function below
//! it is proved to take that step.
//!
//! The contract does not reach for the host. What an operation needs from
//! it, the answer of the ledger or of the validator of identities, is asked
//! ahead of the call and handed in; an operation looks at an answer only
//! where it needs it.

use vstd::prelude::*;
use crate::coin::{credit, credit_balance, creditable, Coin, CoinView};
use crate::env::{BlockInfo, Env, MessageInfo, MessageInfoView};
use crate::error::{
    ContractError, ContractErrorView, PaymentError, PaymentErrorView, StdError, StdErrorView,
    StdResult,
};
use crate::expiration::{expired, is_expired};
use crate::msg::{
    AgentResp, ExecuteMsg, ExecuteMsgView, InstantiateMsg, InstantiateMsgView, QueryMsg,
};
use crate::response::{AttributeView, BankMsg, Response, ResponseView, Transfer};
use crate::state::{Escrow, EscrowView, Store, StoreView};

verus! {

/// How a step ends: with a response, or with the error that refused it.
pub type Outcome = Result<ResponseView, ContractErrorView>;

/// What the ledger answers when asked what the contract holds.
pub type Holdings = Result<Seq<CoinView>, StdErrorView>;

/// The mathematical value of what an operation returned.
pub open spec fn outcome(result: Result<Response, ContractError>) -> Outcome {
    match result {
        Ok(response) => Ok(response@),
        Err(error) => Err(error@),
    }
}

/// The mathematical value of what the ledger answered.
pub open spec fn ledger(holdings: StdResult<Vec<Coin>>) -> Holdings {
    match holdings {
        Ok(coins) => Ok(coins.deep_view()),
        Err(error) => Err(error@),
    }
}

/// The response that instructs the ledger to move `amount` to `to_address`,
/// with the attributes that describe the step.
pub open spec fn sending(
    action: Seq<char>,
    to_address: Seq<char>,
    amount: Seq<CoinView>,
    sender: Seq<char>,
    token: Seq<char>,
) -> ResponseView {
    ResponseView {
        messages: seq![Transfer { to_address, amount }],
        attributes: seq![
            AttributeView { key: "action"@, value: action },
            AttributeView { key: "recipient"@, value: to_address },
            AttributeView { key: "executed_by"@, value: sender },
            AttributeView { key: "token"@, value: token },
        ],
    }
}

/// The record and the token of the escrow, as the operations load them: the
/// record first, then the token.
pub open spec fn loaded(store: StoreView) -> Result<(EscrowView, Seq<char>), StdErrorView> {
    match store.load_escrow() {
        Err(error) => Err(error),
        Ok(escrow) => match store.load_escrow_token() {
            Err(error) => Err(error),
            Ok(token) => Ok((escrow, token)),
        },
    }
}

/// The response that instructs the ledger to move `amount` to `to_address`.
fn transfer_response(
    action: &str,
    to_address: &String,
    amount: Vec<Coin>,
    sender: &String,
    token: &String,
) -> (response: Response)
    ensures
        response@ == sending(action@, to_address@, amount.deep_view(), sender@, token@),
{
    let send = BankMsg::Send { to_address: to_address.clone(), amount };
    let response = Response::new().add_message(send);
    let response = response.add_attribute("action", action);
    let response = response.add_attribute("recipient", to_address.as_str());
    let response = response.add_attribute("executed_by", sender.as_str());
    let response = response.add_attribute("token", token.as_str());
    let ghost expected = sending(action@, to_address@, amount.deep_view(), sender@, token@);
    assert(response@.messages =~= expected.messages);
    assert(response@.attributes =~= expected.attributes);
    response
}

/// What the host's validator made of an identity: the identity, or why it
/// is none.
pub type Identity = Result<Seq<char>, StdErrorView>;

/// The mathematical value of what the validator answered.
pub open spec fn validated(identity: StdResult<String>) -> Identity {
    match identity {
        Ok(name) => Ok(name@),
        Err(error) => Err(error@),
    }
}

/// Setting the escrow up, which starts from the empty store and happens
/// once. The validator must have accepted the agent and the recipient, the
/// ledger must have answered, funds must have been sent, and the
/// expiration, if there is one, must lie ahead; what is amiss is reported
/// in this order. Then the sender becomes the creator of the record, the
/// agent its arbiter, and what the contract holds its balance. Otherwise the
/// store stays empty.
pub open spec fn instantiate_step(
    block: BlockInfo,
    info: MessageInfoView,
    msg: InstantiateMsgView,
    agent: Identity,
    recipient: Identity,
    holdings: Holdings,
) -> (StoreView, Outcome) {
    if agent is Err {
        (StoreView::empty(), Err(ContractErrorView::Std(agent->Err_0)))
    } else if recipient is Err {
        (StoreView::empty(), Err(ContractErrorView::Std(recipient->Err_0)))
    } else if holdings is Err {
        (StoreView::empty(), Err(ContractErrorView::Std(holdings->Err_0)))
    } else if info.funds.len() == 0 {
        (StoreView::empty(), Err(ContractErrorView::NoFunds))
    } else if expired(msg.expiration, block) {
        (
            StoreView::empty(),
            Err(ContractErrorView::Expired { expiration: msg.expiration.unwrap() }),
        )
    } else {
        (
            StoreView {
                escrow: Some(
                    EscrowView {
                        creator: info.sender,
                        arbiter: agent->Ok_0,
                        recipient: recipient->Ok_0,
                        expiration: msg.expiration,
                        balance: holdings->Ok_0,
                    },
                ),
                escrow_token: Some(msg.escrow_token),
            },
            Ok(ResponseView::empty()),
        )
    }
}

/// Sets the escrow up in `store`, on behalf of the sender of `info`, who
/// becomes its creator. An escrow is set up once: `store` must be empty.
///
/// The host is asked three things ahead of the call. `agent` and `recipient`
/// are what its validator made of the two identities of `msg`, and
/// `holdings` is what the ledger answered when asked what the contract
/// holds.
pub fn instantiate(
    store: &mut Store,
    env: Env,
    info: MessageInfo,
    msg: InstantiateMsg,
    agent: StdResult<String>,
    recipient: StdResult<String>,
    holdings: StdResult<Vec<Coin>>,
) -> (result: Result<Response, ContractError>)
    requires
        old(store)@ == StoreView::empty(),
    ensures
        (final(store)@, outcome(result)) == instantiate_step(
            env.block,
            info@,
            msg@,
            validated(agent),
            validated(recipient),
            ledger(holdings),
        ),
{
    let arbiter = match agent {
        Ok(arbiter) => arbiter,
        Err(error) => {
            return Err(ContractError::Std(error));
        },
    };
    let recipient = match recipient {
        Ok(recipient) => recipient,
        Err(error) => {
            return Err(ContractError::Std(error));
        },
    };
    let balance = match holdings {
        Ok(coins) => coins,
        Err(error) => {
            return Err(ContractError::Std(error));
        },
    };
    if info.funds.len() == 0 {
        return Err(ContractError::NoFunds);
    }
    if is_expired(&msg.expiration, &env.block) {
        return Err(ContractError::Expired { expiration: msg.expiration.unwrap() });
    }
    let escrow = Escrow {
        creator: info.sender,
        arbiter,
        recipient,
        expiration: msg.expiration,
        balance,
    };
    store.save_escrow(escrow);
    store.save_escrow_token(msg.escrow_token);
    Ok(Response::new())
}

/// A withdrawal. Only the arbiter may withdraw, and only before the escrow
/// has expired. The recipient gets the amount that was asked for, as it was
/// asked for; where none was asked for, all that the contract holds.
pub open spec fn withdraw_outcome(
    store: StoreView,
    block: BlockInfo,
    sender: Seq<char>,
    amount: Option<Seq<CoinView>>,
    holdings: Holdings,
) -> Outcome {
    match loaded(store) {
        Err(error) => Err(ContractErrorView::Std(error)),
        Ok((escrow, token)) => if sender != escrow.arbiter {
            Err(ContractErrorView::Unauthorized { sender })
        } else if expired(escrow.expiration, block) {
            Err(ContractErrorView::Expired { expiration: escrow.expiration.unwrap() })
        } else {
            match amount {
                Some(coins) => Ok(sending("withdraw"@, escrow.recipient, coins, sender, token)),
                None => match holdings {
                    Ok(coins) => Ok(
                        sending("withdraw"@, escrow.recipient, coins, sender, token),
                    ),
                    Err(error) => Err(ContractErrorView::Std(error)),
                },
            }
        },
    }
}

/// Releases funds to the recipient of the escrow: `amount` as it is given,
/// or without one all of `holdings`, which is what the ledger answered when
/// asked what the contract holds.
pub fn withdraw(
    store: &Store,
    env: Env,
    info: MessageInfo,
    amount: Option<Vec<Coin>>,
    holdings: StdResult<Vec<Coin>>,
) -> (result: Result<Response, ContractError>)
    ensures
        outcome(result) == withdraw_outcome(
            store@,
            env.block,
            info.sender@,
            amount.deep_view(),
            ledger(holdings),
        ),
{
    let escrow = match store.load_escrow() {
        Ok(escrow) => escrow,
        Err(error) => {
            return Err(ContractError::Std(error));
        },
    };
    let token = match store.load_escrow_token() {
        Ok(token) => token,
        Err(error) => {
            return Err(ContractError::Std(error));
        },
    };
    if !escrow.is_authorized(&info.sender) {
        return Err(ContractError::Unauthorized { sender: info.sender });
    }
    if escrow.is_expired(&env.block) {
        return Err(ContractError::Expired { expiration: escrow.expiration.unwrap() });
    }
    let coins = match amount {
        Some(coins) => coins,
        None => match holdings {
            Ok(coins) => coins,
            Err(error) => {
                return Err(ContractError::Std(error));
            },
        },
    };
    Ok(transfer_response("withdraw", &escrow.recipient, coins, &info.sender, token))
}

/// A refund. Only the arbiter may refund, and only once the escrow has
/// expired; an escrow without an expiration is never refunded. The creator
/// gets all that the contract holds.
pub open spec fn refund_outcome(
    store: StoreView,
    block: BlockInfo,
    sender: Seq<char>,
    holdings: Holdings,
) -> Outcome {
    match loaded(store) {
        Err(error) => Err(ContractErrorView::Std(error)),
        Ok((escrow, token)) => if sender != escrow.arbiter {
            Err(ContractErrorView::Unauthorized { sender })
        } else if !expired(escrow.expiration, block) {
            Err(ContractErrorView::NotExpired)
        } else {
            match holdings {
                Ok(coins) => Ok(sending("refund"@, escrow.creator, coins, sender, token)),
                Err(error) => Err(ContractErrorView::Std(error)),
            }
        },
    }
}

/// Returns all of `holdings` to the creator of the escrow. `holdings` is
/// what the ledger answered when asked what the contract holds.
pub fn refund(
    store: &Store,
    env: Env,
    info: MessageInfo,
    holdings: StdResult<Vec<Coin>>,
) -> (result: Result<Response, ContractError>)
    ensures
        outcome(result) == refund_outcome(store@, env.block, info.sender@, ledger(holdings)),
{
    let escrow = match store.load_escrow() {
        Ok(escrow) => escrow,
        Err(error) => {
            return Err(ContractError::Std(error));
        },
    };
    let token = match store.load_escrow_token() {
        Ok(token) => token,
        Err(error) => {
            return Err(ContractError::Std(error));
        },
    };
    if !escrow.is_authorized(&info.sender) {
        return Err(ContractError::Unauthorized { sender: info.sender });
    }
    if !escrow.is_expired(&env.block) {
        return Err(ContractError::NotExpired {});
    }
    let coins = match holdings {
        Ok(coins) => coins,
        Err(error) => {
            return Err(ContractError::Std(error));
        },
    };
    Ok(transfer_response("refund", &escrow.creator, coins, &info.sender, token))
}

/// What a payment of `amount` adds to an escrow of `token`: the payment must
/// be one coin, of a positive amount, and of the token of the escrow.
pub open spec fn payment(
    amount: Seq<CoinView>,
    token: Seq<char>,
) -> Result<u128, ContractErrorView> {
    if amount.len() == 0 {
        Err(ContractErrorView::Payment(PaymentErrorView::NoFunds))
    } else if amount.len() > 1 {
        Err(ContractErrorView::Payment(PaymentErrorView::MultipleDenoms))
    } else if amount[0].amount == 0 {
        Err(ContractErrorView::Payment(PaymentErrorView::NoFunds))
    } else if amount[0].denom != token {
        Err(ContractErrorView::TokenMismatch)
    } else {
        Ok(amount[0].amount)
    }
}

/// Checks that `amount` is a payment into an escrow of `token`, and gives
/// the amount paid.
pub fn paid_amount(amount: &Vec<Coin>, token: &String) -> (paid: Result<u128, ContractError>)
    ensures
        match paid {
            Ok(units) => payment(amount.deep_view(), token@) == Ok::<u128, ContractErrorView>(
                units,
            ),
            Err(error) => payment(amount.deep_view(), token@) == Err::<u128, ContractErrorView>(
                error@,
            ),
        },
{
    if amount.len() == 0 {
        return Err(ContractError::Payment(PaymentError::NoFunds {}));
    }
    if amount.len() > 1 {
        return Err(ContractError::Payment(PaymentError::MultipleDenoms {}));
    }
    let coin = &amount[0];
    assert(amount.deep_view()[0] == coin@);
    if coin.amount == 0 {
        return Err(ContractError::Payment(PaymentError::NoFunds {}));
    }
    if coin.denom != *token {
        return Err(ContractError::TokenMismatch);
    }
    Ok(coin.amount)
}

/// A deposit. Anyone may deposit before the escrow has expired. The balance
/// of the record grows by what was paid, and the ledger is told to move the
/// payment into the custody of the contract, whose address is `custody`.
pub open spec fn deposit_step(
    store: StoreView,
    block: BlockInfo,
    custody: Seq<char>,
    sender: Seq<char>,
    amount: Seq<CoinView>,
) -> (StoreView, Outcome) {
    match loaded(store) {
        Err(error) => (store, Err(ContractErrorView::Std(error))),
        Ok((escrow, token)) => if expired(escrow.expiration, block) {
            (store, Err(ContractErrorView::Expired { expiration: escrow.expiration.unwrap() }))
        } else {
            match payment(amount, token) {
                Err(error) => (store, Err(error)),
                Ok(paid) => if !creditable(escrow.balance, token, paid) {
                    (store, Err(ContractErrorView::Std(StdErrorView::Overflow)))
                } else {
                    (
                        StoreView {
                            escrow: Some(
                                EscrowView {
                                    balance: credit(escrow.balance, token, paid),
                                    ..escrow
                                },
                            ),
                            ..store
                        },
                        Ok(sending("deposit"@, custody, amount, sender, token)),
                    )
                },
            }
        },
    }
}

/// Pays `amount` into the escrow: the balance of the record grows by it, and
/// the ledger is told to move it into the custody of the contract.
pub fn deposit(
    store: &mut Store,
    env: Env,
    info: MessageInfo,
    amount: Vec<Coin>,
) -> (result: Result<Response, ContractError>)
    ensures
        (final(store)@, outcome(result)) == deposit_step(
            old(store)@,
            env.block,
            env.contract.address@,
            info.sender@,
            amount.deep_view(),
        ),
{
    let escrow = match &mut store.escrow {
        Some(escrow) => escrow,
        None => {
            return Err(ContractError::Std(StdError::NotFound { kind: "escrow".to_owned() }));
        },
    };
    let token = match &store.escrow_token {
        Some(token) => token,
        None => {
            return Err(
                ContractError::Std(StdError::NotFound { kind: "escrow_token".to_owned() }),
            );
        },
    };
    if escrow.is_expired(&env.block) {
        return Err(ContractError::Expired { expiration: escrow.expiration.unwrap() });
    }
    let paid = match paid_amount(&amount, token) {
        Ok(paid) => paid,
        Err(error) => {
            return Err(error);
        },
    };
    if !credit_balance(&mut escrow.balance, token, paid) {
        return Err(ContractError::Std(StdError::Overflow {}));
    }
    Ok(transfer_response("deposit", &env.contract.address, amount, &info.sender, token))
}

/// One operation on the escrow, as its message names it.
pub open spec fn execute_step(
    store: StoreView,
    block: BlockInfo,
    custody: Seq<char>,
    sender: Seq<char>,
    msg: ExecuteMsgView,
    holdings: Holdings,
) -> (StoreView, Outcome) {
    match msg {
        ExecuteMsgView::Deposit { amount } => deposit_step(store, block, custody, sender, amount),
        ExecuteMsgView::Withdraw { amount } => (
            store,
            withdraw_outcome(store, block, sender, amount, holdings),
        ),
        ExecuteMsgView::Refund => (store, refund_outcome(store, block, sender, holdings)),
    }
}

/// Carries out the operation that `msg` names. `holdings` is what the ledger
/// answered when asked what the contract holds.
pub fn execute(
    store: &mut Store,
    env: Env,
    info: MessageInfo,
    msg: ExecuteMsg,
    holdings: StdResult<Vec<Coin>>,
) -> (result: Result<Response, ContractError>)
    ensures
        (final(store)@, outcome(result)) == execute_step(
            old(store)@,
            env.block,
            env.contract.address@,
            info.sender@,
            msg@,
            ledger(holdings),
        ),
{
    match msg {
        ExecuteMsg::Deposit { amount } => deposit(store, env, info, amount),
        ExecuteMsg::Withdraw { amount } => withdraw(store, env, info, amount, holdings),
        ExecuteMsg::Refund {} => refund(store, env, info, holdings),
    }
}

/// Who the arbiter of the escrow is.
pub open spec fn arbiter_of(store: StoreView) -> Result<Seq<char>, StdErrorView> {
    match store.load_escrow() {
        Ok(escrow) => Ok(escrow.arbiter),
        Err(error) => Err(error),
    }
}

/// Answers who the arbiter of the escrow is.
pub fn query_arbiter(store: &Store) -> (result: StdResult<AgentResp>)
    ensures
        match result {
            Ok(answer) => arbiter_of(store@) == Ok::<Seq<char>, StdErrorView>(answer@),
            Err(error) => arbiter_of(store@) == Err::<Seq<char>, StdErrorView>(error@),
        },
{
    match store.load_escrow() {
        Ok(escrow) => Ok(AgentResp { agent: escrow.arbiter.clone() }),
        Err(error) => Err(error),
    }
}

/// Answers the question `msg`.
pub fn query(store: &Store, _env: Env, msg: QueryMsg) -> (result: StdResult<AgentResp>)
    ensures
        match result {
            Ok(answer) => arbiter_of(store@) == Ok::<Seq<char>, StdErrorView>(answer@),
            Err(error) => arbiter_of(store@) == Err::<Seq<char>, StdErrorView>(error@),
        },
{
    match msg {
        QueryMsg::Agent {} => query_arbiter(store),
    }
}

} // verus!
