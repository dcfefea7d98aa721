//! What holds of the escrow whatever it is asked to do.
//!
//! Each statement is about the steps that the operations are proved to take,
//! so it holds of the operations themselves.

use vstd::prelude::*;
use crate::coin::{held, lemma_credit_adds, CoinView};
use crate::contract::{
    deposit_step, execute_step, instantiate_step, loaded, refund_outcome, sending,
    withdraw_outcome, Holdings, Identity, Outcome,
};
use crate::env::{BlockInfo, MessageInfoView};
use crate::error::ContractErrorView;
use crate::expiration::{expired, Expiration};
use crate::msg::{ExecuteMsgView, InstantiateMsgView};
use crate::response::{ResponseView, Transfer};
use crate::state::{EscrowView, StoreView};

verus! {

/// An escrow is not born expired: where the expiration of the message has
/// already elapsed, setting the escrow up fails, and the store stays empty.
pub proof fn lemma_not_born_expired(
    block: BlockInfo,
    info: MessageInfoView,
    msg: InstantiateMsgView,
    agent: Identity,
    recipient: Identity,
    holdings: Holdings,
)
    requires
        expired(msg.expiration, block),
    ensures
        instantiate_step(block, info, msg, agent, recipient, holdings).0 == StoreView::empty(),
        instantiate_step(block, info, msg, agent, recipient, holdings).1 is Err,
{
}

/// Where the expiration of the message has already elapsed and nothing else
/// is amiss, that is, the host answered and funds were sent, the error of
/// setting the escrow up is `Expired`, with the expiration of the message.
pub proof fn lemma_born_expired_is_reported(
    block: BlockInfo,
    info: MessageInfoView,
    msg: InstantiateMsgView,
    agent: Identity,
    recipient: Identity,
    holdings: Holdings,
)
    requires
        expired(msg.expiration, block),
        agent is Ok,
        recipient is Ok,
        holdings is Ok,
        info.funds.len() > 0,
    ensures
        instantiate_step(block, info, msg, agent, recipient, holdings) == (
            StoreView::empty(),
            Outcome::Err(ContractErrorView::Expired { expiration: msg.expiration.unwrap() }),
        ),
{
}

/// When an escrow comes to be: where the host answered, funds were sent and
/// the expiration, if there is one, lies ahead, and only then. The record
/// then names the sender as creator, the agent as arbiter and the recipient
/// as the validator wrote them, and it holds what the ledger reported; the
/// response carries no instruction.
pub proof fn lemma_when_an_escrow_is_set_up(
    block: BlockInfo,
    info: MessageInfoView,
    msg: InstantiateMsgView,
    agent: Identity,
    recipient: Identity,
    holdings: Holdings,
)
    ensures
        instantiate_step(block, info, msg, agent, recipient, holdings).1 is Ok <==> {
            &&& agent is Ok
            &&& recipient is Ok
            &&& holdings is Ok
            &&& info.funds.len() > 0
            &&& !expired(msg.expiration, block)
        },
        instantiate_step(block, info, msg, agent, recipient, holdings).1 is Ok
            ==> instantiate_step(block, info, msg, agent, recipient, holdings) == (
            StoreView {
                escrow: Some(
                    EscrowView {
                        creator: info.sender,
                        arbiter: agent->Ok_0,
                        recipient: recipient->Ok_0,
                        expiration: msg.expiration,
                        balance: holdings->Ok_0,
                    },
                ),
                escrow_token: Some(msg.escrow_token),
            },
            Outcome::Ok(ResponseView::empty()),
        ),
{
}

/// Only the arbiter releases or refunds: from anyone else a withdrawal and a
/// refund fail with `Unauthorized`, whatever else holds, and the store is
/// left as it was.
pub proof fn lemma_only_the_arbiter_moves_funds(
    store: StoreView,
    block: BlockInfo,
    custody: Seq<char>,
    sender: Seq<char>,
    amount: Option<Seq<CoinView>>,
    holdings: Holdings,
)
    requires
        loaded(store) is Ok,
        sender != store.escrow.unwrap().arbiter,
    ensures
        withdraw_outcome(store, block, sender, amount, holdings) == Outcome::Err(
            ContractErrorView::Unauthorized { sender },
        ),
        refund_outcome(store, block, sender, holdings) == Outcome::Err(
            ContractErrorView::Unauthorized { sender },
        ),
        execute_step(
            store,
            block,
            custody,
            sender,
            ExecuteMsgView::Withdraw { amount },
            holdings,
        ).0 == store,
        execute_step(store, block, custody, sender, ExecuteMsgView::Refund, holdings).0 == store,
{
}

/// A refund needs an expiration that has elapsed: asked for by the arbiter,
/// it fails with `NotExpired` where the escrow has no expiration or one that
/// lies ahead, and otherwise sends all that the contract holds to the
/// creator.
pub proof fn lemma_refund_waits_for_expiry(
    store: StoreView,
    block: BlockInfo,
    sender: Seq<char>,
    holdings: Holdings,
)
    requires
        loaded(store) is Ok,
        sender == store.escrow.unwrap().arbiter,
    ensures
        store.escrow.unwrap().expiration is None ==> refund_outcome(
            store,
            block,
            sender,
            holdings,
        ) == Outcome::Err(ContractErrorView::NotExpired),
        !expired(store.escrow.unwrap().expiration, block) ==> refund_outcome(
            store,
            block,
            sender,
            holdings,
        ) == Outcome::Err(ContractErrorView::NotExpired),
        expired(store.escrow.unwrap().expiration, block) && holdings is Ok ==> refund_outcome(
            store,
            block,
            sender,
            holdings,
        ) == Outcome::Ok(
            sending(
                "refund"@,
                store.escrow.unwrap().creator,
                holdings->Ok_0,
                sender,
                store.escrow_token.unwrap(),
            ),
        ),
{
}

/// A refund that succeeds carries one instruction: all that the contract
/// holds, to the creator.
pub proof fn lemma_refund_returns_everything(
    store: StoreView,
    block: BlockInfo,
    sender: Seq<char>,
    holdings: Holdings,
)
    requires
        refund_outcome(store, block, sender, holdings) is Ok,
    ensures
        holdings is Ok,
        store.escrow is Some,
        expired(store.escrow.unwrap().expiration, block),
        refund_outcome(store, block, sender, holdings)->Ok_0.messages == seq![
            Transfer { to_address: store.escrow.unwrap().creator, amount: holdings->Ok_0 },
        ],
{
}

/// A withdrawal without an amount drains the contract: where it succeeds it
/// carries one instruction, all that the contract holds, to the recipient.
pub proof fn lemma_default_withdrawal_drains(
    store: StoreView,
    block: BlockInfo,
    sender: Seq<char>,
    holdings: Holdings,
)
    requires
        withdraw_outcome(store, block, sender, None, holdings) is Ok,
    ensures
        holdings is Ok,
        store.escrow is Some,
        withdraw_outcome(store, block, sender, None, holdings)->Ok_0.messages == seq![
            Transfer { to_address: store.escrow.unwrap().recipient, amount: holdings->Ok_0 },
        ],
{
}

/// A withdrawal of an amount moves that amount as it was given: where it
/// succeeds it carries one instruction, the amount, to the recipient; and
/// neither what the contract holds nor the balance of the record bears on
/// its outcome.
pub proof fn lemma_explicit_withdrawal_is_verbatim(
    store: StoreView,
    block: BlockInfo,
    sender: Seq<char>,
    amount: Seq<CoinView>,
    holdings: Holdings,
    other_holdings: Holdings,
    other_balance: Seq<CoinView>,
)
    requires
        store.escrow is Some,
    ensures
        withdraw_outcome(store, block, sender, Some(amount), holdings) is Ok ==> withdraw_outcome(
            store,
            block,
            sender,
            Some(amount),
            holdings,
        )->Ok_0.messages == seq![
            Transfer { to_address: store.escrow.unwrap().recipient, amount },
        ],
        withdraw_outcome(store, block, sender, Some(amount), holdings) == withdraw_outcome(
            StoreView {
                escrow: Some(EscrowView { balance: other_balance, ..store.escrow.unwrap() }),
                ..store
            },
            block,
            sender,
            Some(amount),
            other_holdings,
        ),
{
}

/// When a withdrawal is owed: the arbiter gets one from an escrow that is
/// set up and has not expired, where an amount is given or the ledger
/// answered; and nobody else does, nor the arbiter otherwise.
pub proof fn lemma_when_a_withdrawal_succeeds(
    store: StoreView,
    block: BlockInfo,
    sender: Seq<char>,
    amount: Option<Seq<CoinView>>,
    holdings: Holdings,
)
    ensures
        withdraw_outcome(store, block, sender, amount, holdings) is Ok <==> {
            &&& loaded(store) is Ok
            &&& sender == store.escrow.unwrap().arbiter
            &&& !expired(store.escrow.unwrap().expiration, block)
            &&& (amount is Some || holdings is Ok)
        },
{
}

/// A deposit in another denomination than the token of the escrow fails, and
/// the store, with the balance of the record, is left as it was. Where the
/// escrow is set up and has not expired, and the payment is one coin of a
/// positive amount, the error is `TokenMismatch`.
pub proof fn lemma_deposit_keeps_to_the_token(
    store: StoreView,
    block: BlockInfo,
    custody: Seq<char>,
    sender: Seq<char>,
    amount: Seq<CoinView>,
    index: int,
)
    requires
        0 <= index < amount.len(),
        store.escrow_token is Some ==> amount[index].denom != store.escrow_token.unwrap(),
    ensures
        deposit_step(store, block, custody, sender, amount).0 == store,
        deposit_step(store, block, custody, sender, amount).1 is Err,
        loaded(store) is Ok && !expired(store.escrow.unwrap().expiration, block) && amount.len()
            == 1 && amount[0].amount > 0 ==> deposit_step(
            store,
            block,
            custody,
            sender,
            amount,
        ).1 == Outcome::Err(ContractErrorView::TokenMismatch),
{
}

/// A deposit that succeeds raises what the record holds of the token by what
/// was paid, leaves what it holds of every other denomination as it was, and
/// tells the ledger to move the payment into the custody of the contract.
pub proof fn lemma_deposit_credits_the_payment(
    store: StoreView,
    block: BlockInfo,
    custody: Seq<char>,
    sender: Seq<char>,
    amount: Seq<CoinView>,
    other: Seq<char>,
)
    requires
        deposit_step(store, block, custody, sender, amount).1 is Ok,
    ensures
        ({
            let before = store.escrow.unwrap();
            let token = store.escrow_token.unwrap();
            let after = deposit_step(store, block, custody, sender, amount).0;
            let response = deposit_step(store, block, custody, sender, amount).1->Ok_0;
            &&& loaded(store) is Ok
            &&& amount.len() == 1
            &&& amount[0].denom == token
            &&& amount[0].amount > 0
            &&& after.escrow is Some
            &&& held(after.escrow.unwrap().balance, token) == held(before.balance, token)
                + amount[0].amount
            &&& other != token ==> held(after.escrow.unwrap().balance, other) == held(
                before.balance,
                other,
            )
            &&& response.messages == seq![Transfer { to_address: custody, amount }]
        }),
{
    let before = store.escrow.unwrap();
    let token = store.escrow_token.unwrap();
    lemma_credit_adds(before.balance, token, amount[0].amount, other);
}

/// Anyone may deposit: who pays bears neither on whether a deposit succeeds
/// nor on what it leaves in the store.
pub proof fn lemma_anyone_may_deposit(
    store: StoreView,
    block: BlockInfo,
    custody: Seq<char>,
    sender: Seq<char>,
    other: Seq<char>,
    amount: Seq<CoinView>,
)
    ensures
        deposit_step(store, block, custody, sender, amount).0 == deposit_step(
            store,
            block,
            custody,
            other,
            amount,
        ).0,
        deposit_step(store, block, custody, sender, amount).1 is Ok <==> deposit_step(
            store,
            block,
            custody,
            other,
            amount,
        ).1 is Ok,
{
}

/// A step that is refused changes nothing: where setting up fails the store
/// stays empty, and where an operation fails the store is left as it was.
pub proof fn lemma_a_refused_step_changes_nothing(
    store: StoreView,
    block: BlockInfo,
    custody: Seq<char>,
    info: MessageInfoView,
    setup: InstantiateMsgView,
    agent: Identity,
    recipient: Identity,
    msg: ExecuteMsgView,
    holdings: Holdings,
)
    ensures
        instantiate_step(block, info, setup, agent, recipient, holdings).1 is Err
            ==> instantiate_step(block, info, setup, agent, recipient, holdings).0
            == StoreView::empty(),
        execute_step(store, block, custody, info.sender, msg, holdings).1 is Err ==> execute_step(
            store,
            block,
            custody,
            info.sender,
            msg,
            holdings,
        ).0 == store,
{
}

/// The parties of an escrow are fixed: no operation changes who its creator,
/// its arbiter and its recipient are, when it expires, or which token it
/// takes; and only a deposit changes its balance.
pub proof fn lemma_the_parties_are_fixed(
    store: StoreView,
    block: BlockInfo,
    custody: Seq<char>,
    sender: Seq<char>,
    msg: ExecuteMsgView,
    holdings: Holdings,
)
    requires
        store.escrow is Some,
    ensures
        ({
            let before = store.escrow.unwrap();
            let after = execute_step(store, block, custody, sender, msg, holdings).0;
            &&& after.escrow is Some
            &&& after.escrow.unwrap().creator == before.creator
            &&& after.escrow.unwrap().arbiter == before.arbiter
            &&& after.escrow.unwrap().recipient == before.recipient
            &&& after.escrow.unwrap().expiration == before.expiration
            &&& after.escrow_token == store.escrow_token
            &&& !(msg is Deposit) ==> after == store
        }),
{
}

/// Expiry is final: a bound that has been reached in one block has been
/// reached in every block that is no earlier in height and in time.
pub proof fn lemma_expiry_is_final(
    expiration: Option<Expiration>,
    block: BlockInfo,
    later: BlockInfo,
)
    requires
        expired(expiration, block),
        block.height <= later.height,
        block.time.nanos <= later.time.nanos,
    ensures
        expired(expiration, later),
{
}

/// Release and refund exclude each other: on one store and in one block a
/// withdrawal and a refund never both succeed.
pub proof fn lemma_release_and_refund_exclude_each_other(
    store: StoreView,
    block: BlockInfo,
    sender: Seq<char>,
    refunder: Seq<char>,
    amount: Option<Seq<CoinView>>,
    holdings: Holdings,
)
    ensures
        !(withdraw_outcome(store, block, sender, amount, holdings) is Ok && refund_outcome(
            store,
            block,
            refunder,
            holdings,
        ) is Ok),
{
}

} // verus!
