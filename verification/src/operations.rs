//! What the library's operations do to what they are given, said of their arguments and
//! results field by field. `call_ensures(f, arguments, result)` says that a call of `f` with
//! these arguments gave this result.

use bitcoin_hashes::sha256;
use vstd::prelude::*;

use crate::created::{FundingEvent, FundingStep};
use crate::error::{GatewayPayError, GatewayPayErrorView};
use crate::funded::{GatewayReply, PayInvoiceEvent, PayInvoiceStep, PayInvoiceStepView};
use crate::refund::AwaitTxAccepted;
use crate::refundable::{PollEvent, PollStep};
use crate::states::{
    LightningPayCommon, LightningPayCreatedOutgoingLnContract, LightningPayFunded,
    LightningPayRefund, LightningPayRefundable, LightningPayStateMachine, LightningPayStates,
    LightningPayStatesView,
};
use crate::transition::{
    Completed, PayType, RefundClaim, StateTransition, StateTransitionView, TransitionOutcome,
    TransitionOutcomeView,
};
use crate::types::{
    ContractId, FederationId, LightningGateway, OperationId, OutPoint, OutgoingContractAccount,
    OutgoingContractData, PayInvoicePayload, TransactionId,
};

verus! {

/// A gateway's answer is never taken for more than it is: a response whose status lies
/// outside 200 to 299 is an error with that status and the response's words, and only one
/// whose status lies inside gives a preimage, which is the body without the character at
/// each end.
pub proof fn law_a_response_is_read_by_its_status(
    gateway: LightningGateway,
    payload: PayInvoicePayload,
    status: u16,
    body: String,
    step: PayInvoiceStep,
)
    requires
        call_ensures(
            LightningPayFunded::gateway_pay_invoice,
            (
                PayInvoiceEvent::Replied(GatewayReply::Received { status, text: Some(body) }),
                &gateway,
                &payload,
            ),
            step,
        ),
        100 <= status <= 999,
        200 <= status <= 299 ==> body@.len() >= 2,
        200 <= status <= 299 ==> body@[0] as u32 <= 0x7f,
        200 <= status <= 299 ==> body@[body@.len() - 1] as u32 <= 0x7f,
    ensures
        step matches PayInvoiceStep::Finished(Ok(_)) <==> 200 <= status <= 299,
        step matches PayInvoiceStep::Finished(Ok(preimage)) ==> {
            &&& preimage@.len() == body@.len() - 2
            &&& forall|i: int| 0 <= i < preimage@.len() ==> #[trigger] preimage@[i] == body@[i + 1]
        },
        !(200 <= status <= 299) ==> step == PayInvoiceStep::Finished(
            Err(
                GatewayPayError::GatewayInternalError {
                    error_code: Some(status),
                    error_message: body,
                },
            ),
        ),
{
    if 200 <= status <= 299 {
        assert(step matches PayInvoiceStep::Finished(Ok(preimage)) && body@ == seq![body@[0]]
            + preimage@ + seq![body@[body@.len() - 1]]);
        let preimage = step->Finished_0->Ok_0@;
        assert forall|i: int| 0 <= i < preimage.len() implies #[trigger] preimage[i] == body@[i
            + 1] by {
            assert((seq![body@[0]] + preimage + seq![body@[body@.len() - 1]])[i + 1]
                == preimage[i]);
        }
    }
}

/// Where no body came, there is no preimage: a request that could not be sent is an error
/// with the sender's words, and a successful response that cannot be read is an error with
/// words of its own; neither has a code.
pub proof fn law_no_body_is_no_preimage(
    gateway: LightningGateway,
    payload: PayInvoicePayload,
    status: u16,
    message: String,
    unsent: PayInvoiceStep,
    unread: PayInvoiceStep,
)
    requires
        call_ensures(
            LightningPayFunded::gateway_pay_invoice,
            (
                PayInvoiceEvent::Replied(GatewayReply::SendFailed { message }),
                &gateway,
                &payload,
            ),
            unsent,
        ),
        call_ensures(
            LightningPayFunded::gateway_pay_invoice,
            (
                PayInvoiceEvent::Replied(GatewayReply::Received { status, text: None }),
                &gateway,
                &payload,
            ),
            unread,
        ),
        200 <= status <= 299,
    ensures
        unsent == PayInvoiceStep::Finished(
            Err(
                GatewayPayError::GatewayInternalError { error_code: None, error_message: message },
            ),
        ),
        unread matches PayInvoiceStep::Finished(
            Err(GatewayPayError::GatewayInternalError { error_code: None, error_message }),
        ) && error_message@ == "Error retrieving preimage from response"@,
{
}

/// The request to pay goes to the gateway's own endpoint and names the federation and the
/// contract that it was made for, whole and unchanged.
pub proof fn law_the_request_carries_its_payload(
    gateway: LightningGateway,
    payload: PayInvoicePayload,
    step: PayInvoiceStep,
)
    requires
        call_ensures(
            LightningPayFunded::gateway_pay_invoice,
            (PayInvoiceEvent::Started, &gateway, &payload),
            step,
        ),
    ensures
        step !is Finished,
        step is NoEndpoint <==> crate::http::url_join(gateway.api@, "pay_invoice"@) is None,
        step matches PayInvoiceStep::Post(request) ==> {
            &&& crate::http::url_join(gateway.api@, "pay_invoice"@) == Some(request.url@)
            &&& request.payload.federation_id.bytes@ == payload.federation_id.bytes@
            &&& request.payload.contract_id == payload.contract_id
        },
{
}

/// A request is posted to the URL that it is given, with the payload that it is given.
pub proof fn law_requests_are_posted_as_given(
    url: String,
    payload: PayInvoicePayload,
    known: PayInvoiceStep,
    unknown: PayInvoiceStep,
)
    requires
        call_ensures(LightningPayFunded::pay_invoice_request, (Some(url), &payload), known),
        call_ensures(LightningPayFunded::pay_invoice_request, (None, &payload), unknown),
    ensures
        known matches PayInvoiceStep::Post(request) && {
            &&& request.url == url
            &&& request.payload.federation_id.bytes@ == payload.federation_id.bytes@
            &&& request.payload.contract_id == payload.contract_id
        },
        unknown is NoEndpoint,
{
}

/// Whoever claims a refund claims the account of the contract itself, signs with the
/// recovery key of the contract and with nothing else, and creates no state machine.
pub proof fn law_a_refund_is_signed_by_the_recovery_key(
    common: LightningPayCommon,
    claim: RefundClaim,
)
    requires
        call_ensures(LightningPayRefundable::refund_claim, (common,), claim),
    ensures
        claim.account == common.contract.contract_account,
        claim.keys@.len() == 1,
        claim.keys@[0] == common.contract.recovery_key,
        claim.state_machines@.len() == 0,
{
}

/// A transition claims a refund exactly when it waited for the contract to be cancelled or
/// to time out, and then for the payment that it belongs to.
pub proof fn law_transitions_claim_their_own_refund(
    transition: StateTransition,
    common: LightningPayCommon,
    claim: Option<RefundClaim>,
)
    requires
        call_ensures(StateTransition::refund_claim, (&transition,), claim),
        transition matches StateTransition::ContractCancelled { common: c, .. } ==> c == common,
        transition matches StateTransition::ContractTimedOut { common: c, .. } ==> c == common,
    ensures
        claim is Some <==> transition is ContractCancelled || transition is ContractTimedOut,
        claim matches Some(claim) ==> {
            &&& claim.account.contract == common.contract.contract_account.contract
            &&& claim.account.encoded@ == common.contract.contract_account.encoded@
            &&& claim.keys@ == seq![common.contract.recovery_key]
            &&& claim.state_machines@.len() == 0
        },
{
}

/// A contract that is funded keeps the timelock that the federation gave, the gateway that
/// was chosen and the payment hash of its invoice, and the gateway will be asked to pay
/// from it; a contract that is not funded is canceled. Nothing is recorded.
pub proof fn law_a_funded_contract_keeps_what_was_given(
    transition: StateTransition,
    result: Result<u32, GatewayPayError>,
    old_state: LightningPayStateMachine,
    done: Completed,
)
    requires
        transition is OutgoingContractFunded,
        call_ensures(
            StateTransition::complete,
            (transition, TransitionOutcome::OutgoingContractFunded(result), old_state),
            done,
        ),
    ensures
        done.machine.common == old_state.common,
        done.payment_result is None,
        result is Err <==> done.machine.state is Canceled,
        result matches Ok(given) ==> {
            &&& done.machine.state matches LightningPayStates::Funded(funded)
            &&& funded.timelock == given
            &&& funded.gateway == transition->OutgoingContractFunded_gateway
            &&& funded.payload.contract_id == transition->OutgoingContractFunded_contract_id
            &&& funded.payload.federation_id
                == transition->OutgoingContractFunded_common.federation_id
            &&& funded.payment_hash
                == transition->OutgoingContractFunded_common.contract.contract_account.contract
                .invoice.payment_hash
        },
{
}

/// A preimage is kept whole, and its payment is recorded; a failure is kept whole too, with
/// the contract and the timelock that the refund needs, and nothing is recorded.
pub proof fn law_the_gateways_answer_is_kept(
    transition: StateTransition,
    result: Result<String, GatewayPayError>,
    old_state: LightningPayStateMachine,
    done: Completed,
)
    requires
        transition is OutgoingContractExecuted,
        call_ensures(
            StateTransition::complete,
            (transition, TransitionOutcome::OutgoingContractExecuted(result), old_state),
            done,
        ),
    ensures
        done.machine.common == old_state.common,
        result matches Ok(preimage) ==> {
            &&& done.machine.state matches LightningPayStates::Success(kept)
            &&& kept@ == preimage@
            &&& done.payment_result matches Some(recorded)
            &&& recorded.payment_hash == transition->OutgoingContractExecuted_payment_hash
            &&& recorded.contract_id == transition->OutgoingContractExecuted_contract_id
            &&& recorded.fee == transition->OutgoingContractExecuted_common.gateway_fee
            &&& recorded.payment_type matches PayType::Lightning(operation_id)
            &&& operation_id == old_state.common.operation_id
        },
        result matches Err(why) ==> {
            &&& done.machine.state matches LightningPayStates::Refundable(refundable)
            &&& refundable.error == why
            &&& refundable.contract_id == transition->OutgoingContractExecuted_contract_id
            &&& refundable.block_timelock == transition->OutgoingContractExecuted_timelock
            &&& done.payment_result is None
        },
{
}

/// A refund keeps the transaction and the outputs that were claimed, and hands these outputs
/// out when it is accepted; one that is rejected is a failure. Nothing is recorded.
pub proof fn law_a_refund_hands_out_what_was_claimed(
    waiting: StateTransition,
    txid: TransactionId,
    out_points: Vec<OutPoint>,
    refundable: LightningPayStateMachine,
    claimed: Completed,
    transitions: Vec<StateTransition>,
    result: Result<(), String>,
    decided: Completed,
)
    requires
        waiting is ContractCancelled || waiting is ContractTimedOut,
        call_ensures(
            StateTransition::complete,
            (waiting, TransitionOutcome::RefundClaimed { txid, out_points }, refundable),
            claimed,
        ),
        call_ensures(
            LightningPayStateMachine::transitions,
            (&claimed.machine,),
            transitions,
        ),
        call_ensures(
            StateTransition::complete,
            (transitions@[0], TransitionOutcome::RefundDecided(result), claimed.machine),
            decided,
        ),
    ensures
        claimed.machine.state == LightningPayStates::Refund(
            LightningPayRefund { txid, out_points },
        ),
        transitions@.len() == 1,
        result is Ok ==> (decided.machine.state matches LightningPayStates::Refunded(refunded)
            && refunded@ == out_points@),
        result is Err ==> (decided.machine.state matches LightningPayStates::Failure(reason)
            && reason@ == "Refund Transaction was rejected."@),
        claimed.machine.common == refundable.common,
        decided.machine.common == refundable.common,
        claimed.payment_result is None,
        decided.payment_result is None,
{
}

/// From a created contract to the gateway: the gateway that was chosen is asked to pay from
/// the contract that was created, of the federation that the payment belongs to.
pub proof fn law_the_gateway_is_asked_to_pay_from_the_created_contract(
    machine: LightningPayStateMachine,
    created: LightningPayCreatedOutgoingLnContract,
    transitions: Vec<StateTransition>,
    timelock: u32,
    funded: Completed,
    next: Vec<StateTransition>,
    step: Option<PayInvoiceStep>,
)
    requires
        machine.state == LightningPayStates::CreatedOutgoingLnContract(created),
        call_ensures(LightningPayStateMachine::transitions, (&machine,), transitions),
        call_ensures(
            StateTransition::complete,
            (transitions@[0], TransitionOutcome::OutgoingContractFunded(Ok(timelock)), machine),
            funded,
        ),
        call_ensures(LightningPayStateMachine::transitions, (&funded.machine,), next),
        call_ensures(
            StateTransition::pay_invoice_step,
            (&next@[0], PayInvoiceEvent::Started),
            step,
        ),
    ensures
        transitions@.len() == 1,
        next@.len() == 1,
        match crate::http::url_join(created.gateway.api@, "pay_invoice"@) {
            Some(url) => {
                &&& step matches Some(PayInvoiceStep::Post(request))
                &&& request.url@ == url
                &&& request.payload.contract_id == created.contract_id
                &&& request.payload.federation_id.bytes@ == machine.common.federation_id.bytes@
            },
            None => step matches Some(PayInvoiceStep::NoEndpoint),
        },
{
    law_common_shows_its_fields(machine.common);
    law_common_shows_its_fields(transitions@[0]->OutgoingContractFunded_common);
    assert(next@[0] is OutgoingContractExecuted);
    assert(call_ensures(
        LightningPayFunded::gateway_pay_invoice,
        (
            PayInvoiceEvent::Started,
            &next@[0]->OutgoingContractExecuted_gateway,
            &next@[0]->OutgoingContractExecuted_payload,
        ),
        step->0,
    ));
}

/// From a created contract to its refund: when the gateway fails, the cancellation of the
/// created contract is waited for, and the block height that the federation gave as its
/// timelock when it was funded, to the digit.
pub proof fn law_a_refund_waits_for_the_given_block_height(
    machine: LightningPayStateMachine,
    created: LightningPayCreatedOutgoingLnContract,
    transitions: Vec<StateTransition>,
    timelock: u32,
    funded: Completed,
    next: Vec<StateTransition>,
    why: GatewayPayError,
    failed: Completed,
    last: Vec<StateTransition>,
    cancellation: Option<PollStep>,
    timeout: Option<PollStep>,
)
    requires
        machine.state == LightningPayStates::CreatedOutgoingLnContract(created),
        call_ensures(LightningPayStateMachine::transitions, (&machine,), transitions),
        call_ensures(
            StateTransition::complete,
            (transitions@[0], TransitionOutcome::OutgoingContractFunded(Ok(timelock)), machine),
            funded,
        ),
        call_ensures(LightningPayStateMachine::transitions, (&funded.machine,), next),
        call_ensures(
            StateTransition::complete,
            (next@[0], TransitionOutcome::OutgoingContractExecuted(Err(why)), funded.machine),
            failed,
        ),
        call_ensures(LightningPayStateMachine::transitions, (&failed.machine,), last),
        call_ensures(StateTransition::poll_step, (&last@[0], PollEvent::Started), cancellation),
        call_ensures(StateTransition::poll_step, (&last@[1], PollEvent::Started), timeout),
    ensures
        last@.len() == 2,
        cancellation matches Some(PollStep::WaitOutgoingContractCancelled { contract_id })
            && contract_id == created.contract_id,
        timeout matches Some(PollStep::WaitBlockHeight { block_height }) && block_height
            == timelock,
        failed.machine.state matches LightningPayStates::Refundable(refundable)
            && refundable.error == why,
{
    assert(next@[0] is OutgoingContractExecuted);
}

/// From a created contract to its payment: what is recorded is the payment of the invoice
/// that the contract was made for, from the created contract, at the agreed fee.
pub proof fn law_a_paid_invoice_is_recorded_as_it_was_created(
    machine: LightningPayStateMachine,
    created: LightningPayCreatedOutgoingLnContract,
    transitions: Vec<StateTransition>,
    timelock: u32,
    funded: Completed,
    next: Vec<StateTransition>,
    preimage: String,
    paid: Completed,
)
    requires
        machine.state == LightningPayStates::CreatedOutgoingLnContract(created),
        call_ensures(LightningPayStateMachine::transitions, (&machine,), transitions),
        call_ensures(
            StateTransition::complete,
            (transitions@[0], TransitionOutcome::OutgoingContractFunded(Ok(timelock)), machine),
            funded,
        ),
        call_ensures(LightningPayStateMachine::transitions, (&funded.machine,), next),
        call_ensures(
            StateTransition::complete,
            (next@[0], TransitionOutcome::OutgoingContractExecuted(Ok(preimage)), funded.machine),
            paid,
        ),
    ensures
        paid.machine.state matches LightningPayStates::Success(kept) && kept@ == preimage@,
        paid.machine.common == machine.common,
        paid.payment_result matches Some(recorded) && {
            &&& recorded.payment_hash
                == machine.common.contract.contract_account.contract.invoice.payment_hash
            &&& recorded.contract_id == created.contract_id
            &&& recorded.fee == machine.common.gateway_fee
            &&& recorded.payment_type matches PayType::Lightning(operation_id)
            &&& operation_id == machine.common.operation_id
        },
{
    law_common_shows_its_fields(machine.common);
    law_common_shows_its_fields(transitions@[0]->OutgoingContractFunded_common);
    assert(next@[0] is OutgoingContractExecuted);
    law_common_shows_its_fields(next@[0]->OutgoingContractExecuted_common);
}

/// The wait for a funding begins with the first output of the funding transaction, goes on
/// with the contract, and ends with the timelock of the contract that was handed out.
pub proof fn law_the_funding_is_asked_for_by_its_own_names(
    transition: StateTransition,
    account: OutgoingContractAccount,
    first: Option<FundingStep>,
    second: Option<FundingStep>,
    third: Option<FundingStep>,
)
    requires
        transition is OutgoingContractFunded,
        call_ensures(StateTransition::funding_step, (&transition, FundingEvent::Started), first),
        call_ensures(
            StateTransition::funding_step,
            (&transition, FundingEvent::OutputAccepted),
            second,
        ),
        call_ensures(
            StateTransition::funding_step,
            (&transition, FundingEvent::ContractFetched(account)),
            third,
        ),
    ensures
        first matches Some(FundingStep::AwaitOutputOutcome { out_point, timeout_millis }) && {
            &&& out_point.txid == transition->OutgoingContractFunded_txid
            &&& out_point.out_idx == 0
            &&& timeout_millis == i32::MAX
        },
        second matches Some(FundingStep::GetOutgoingContract { contract_id }) && contract_id
            == transition->OutgoingContractFunded_contract_id,
        third matches Some(FundingStep::Finished(Ok(timelock))) && timelock
            == account.contract.timelock,
{
}

/// The wait for a refund names the operation and the transaction of the refund.
pub proof fn law_the_refund_is_asked_for_by_its_own_names(
    transition: StateTransition,
    wait: Option<AwaitTxAccepted>,
)
    requires
        call_ensures(StateTransition::refund_wait, (&transition,), wait),
    ensures
        wait is Some <==> transition is RefundDecided,
        wait matches Some(wait) ==> {
            &&& wait.txid == transition->RefundDecided_refund_txid
            &&& wait.operation_id == transition->RefundDecided_common.operation_id
        },
{
}

/// A reply is refused exactly where it cannot be read: where its status is no status code,
/// where a refusal has no body, or where the body of a success has not got a one-byte
/// character at each end.
pub proof fn law_unreadable_replies(reply: GatewayReply, readable: bool)
    requires
        call_ensures(GatewayReply::check_readable, (&reply,), readable),
    ensures
        readable == reply.is_readable(),
        !readable <==> (reply matches GatewayReply::Received { status, text } && {
            ||| status < 100
            ||| status > 999
            ||| (status < 200 || status > 299) && text is None
            ||| 200 <= status <= 299 && (text matches Some(body) && (body@.len() < 2
                || body@[0] as u32 > 0x7f || body@[body@.len() - 1] as u32 > 0x7f))
        }),
{
}

/// Taking the ends off a text in quotes gives back the text that was put in quotes.
pub proof fn law_unwrapping_undoes_quoting(text: Seq<char>, quoted: &str, unwrapped: String)
    requires
        quoted@ == seq!['"'] + text + seq!['"'],
        call_ensures(crate::text::unwrap_text, (quoted,), unwrapped),
    ensures
        unwrapped@ == text,
{
    let n = text.len() as int;
    assert(quoted@.subrange(1, n + 1) =~= text);
    assert((seq![quoted@[0]] + unwrapped@ + seq![quoted@[quoted@.len() - 1]]).subrange(1, n + 1)
        =~= unwrapped@);
}

/// What a payment's common part stands for shows each of its fields as it is.
pub proof fn law_common_shows_its_fields(common: LightningPayCommon)
    ensures
        common@.operation_id == common.operation_id,
        common@.federation_id == common.federation_id.bytes@,
        common@.contract.recovery_key == common.contract.recovery_key,
        common@.contract.contract_account.contract == common.contract.contract_account.contract,
        common@.contract.contract_account.encoded == common.contract.contract_account.encoded@,
        common@.gateway_fee == common.gateway_fee,
        common@.payment_hash()
            == common.contract.contract_account.contract.invoice.payment_hash,
{
}

/// What the values of a payment stand for shows each of their fields as it is.
pub proof fn law_values_show_their_fields(
    federation_id: FederationId,
    account: OutgoingContractAccount,
    data: OutgoingContractData,
    gateway: LightningGateway,
    payload: PayInvoicePayload,
    error: GatewayPayError,
)
    ensures
        federation_id@ == federation_id.bytes@,
        account@.contract == account.contract,
        account@.encoded == account.encoded@,
        data@.recovery_key == data.recovery_key,
        data@.contract_account.contract == data.contract_account.contract,
        data@.contract_account.encoded == data.contract_account.encoded@,
        gateway@.api == gateway.api@,
        gateway@.announcement == gateway.announcement@,
        payload@.federation_id == payload.federation_id.bytes@,
        payload@.contract_id == payload.contract_id,
        error@ == match error {
            GatewayPayError::GatewayInternalError { error_code, error_message } =>
                GatewayPayErrorView::GatewayInternalError {
                    error_code,
                    error_message: error_message@,
                },
            GatewayPayError::OutgoingContractError => GatewayPayErrorView::OutgoingContractError,
        },
{
}

/// What a machine stands for shows its common part and each field of its state as it is.
pub proof fn law_machines_show_their_fields(machine: LightningPayStateMachine)
    ensures
        machine@.common == machine.common@,
        match machine.state {
            LightningPayStates::CreatedOutgoingLnContract(created) => machine@.state
                matches LightningPayStatesView::CreatedOutgoingLnContract {
                funding_txid,
                contract_id,
                gateway,
            } && {
                &&& funding_txid == created.funding_txid
                &&& contract_id == created.contract_id
                &&& gateway.api == created.gateway.api@
                &&& gateway.announcement == created.gateway.announcement@
            },
            LightningPayStates::Canceled => machine@.state is Canceled,
            LightningPayStates::Funded(funded) => machine@.state
                matches LightningPayStatesView::Funded {
                payload,
                gateway,
                timelock,
                payment_hash,
            } && {
                &&& payload.federation_id == funded.payload.federation_id.bytes@
                &&& payload.contract_id == funded.payload.contract_id
                &&& gateway.api == funded.gateway.api@
                &&& gateway.announcement == funded.gateway.announcement@
                &&& timelock == funded.timelock
                &&& payment_hash == funded.payment_hash
            },
            LightningPayStates::Success(text) => machine@.state
                matches LightningPayStatesView::Success { preimage } && preimage == text@,
            LightningPayStates::Refundable(refundable) => machine@.state
                matches LightningPayStatesView::Refundable { contract_id, block_timelock, error }
                && {
                &&& contract_id == refundable.contract_id
                &&& block_timelock == refundable.block_timelock
                &&& error == refundable.error@
            },
            LightningPayStates::Refund(refund) => machine@.state
                matches LightningPayStatesView::Refund { txid, out_points } && {
                &&& txid == refund.txid
                &&& out_points == refund.out_points@
            },
            LightningPayStates::Refunded(refunded) => machine@.state
                matches LightningPayStatesView::Refunded { out_points } && out_points
                == refunded@,
            LightningPayStates::Failure(text) => machine@.state
                matches LightningPayStatesView::Failure { reason } && reason == text@,
        },
{
}

/// What a transition stands for shows each of its fields as it is.
pub proof fn law_transitions_show_their_fields(transition: StateTransition)
    ensures
        match transition {
            StateTransition::OutgoingContractFunded { txid, contract_id, common, gateway } =>
                transition@ matches StateTransitionView::OutgoingContractFunded {
                txid: t,
                contract_id: i,
                common: c,
                gateway: g,
            } && t == txid && i == contract_id && c == common@ && g == gateway@,
            StateTransition::OutgoingContractExecuted {
                gateway,
                payload,
                contract_id,
                timelock,
                payment_hash,
                common,
            } => transition@ matches StateTransitionView::OutgoingContractExecuted {
                gateway: g,
                payload: p,
                contract_id: i,
                timelock: t,
                payment_hash: h,
                common: c,
            } && g == gateway@ && p == payload@ && i == contract_id && t == timelock && h
                == payment_hash && c == common@,
            StateTransition::ContractCancelled { contract_id, common } => transition@
                matches StateTransitionView::ContractCancelled { contract_id: i, common: c } && i
                == contract_id && c == common@,
            StateTransition::ContractTimedOut { timelock, common } => transition@
                matches StateTransitionView::ContractTimedOut { timelock: t, common: c } && t
                == timelock && c == common@,
            StateTransition::RefundDecided { common, refund_txid, refund_out_points } =>
                transition@ matches StateTransitionView::RefundDecided {
                common: c,
                refund_txid: t,
                refund_out_points: o,
            } && c == common@ && t == refund_txid && o == refund_out_points@,
        },
{
}

/// What an outcome stands for shows what came of the wait as it is.
pub proof fn law_outcomes_show_what_came(outcome: TransitionOutcome)
    ensures
        match outcome {
            TransitionOutcome::OutgoingContractFunded(Ok(timelock)) => outcome@
                == TransitionOutcomeView::OutgoingContractFunded(Ok(timelock)),
            TransitionOutcome::OutgoingContractFunded(Err(error)) => outcome@
                == TransitionOutcomeView::OutgoingContractFunded(Err(error@)),
            TransitionOutcome::OutgoingContractExecuted(Ok(preimage)) => outcome@
                == TransitionOutcomeView::OutgoingContractExecuted(Ok(preimage@)),
            TransitionOutcome::OutgoingContractExecuted(Err(error)) => outcome@
                == TransitionOutcomeView::OutgoingContractExecuted(Err(error@)),
            TransitionOutcome::RefundClaimed { txid, out_points } => outcome@
                matches TransitionOutcomeView::RefundClaimed { txid: t, out_points: o } && t
                == txid && o == out_points@,
            TransitionOutcome::RefundDecided(Ok(_)) => outcome@
                == TransitionOutcomeView::RefundDecided(Ok(())),
            TransitionOutcome::RefundDecided(Err(reason)) => outcome@
                == TransitionOutcomeView::RefundDecided(Err(reason@)),
        },
{
}

/// What a step of asking the gateway stands for shows its request or its result as it is.
pub proof fn law_steps_show_their_request(step: PayInvoiceStep)
    ensures
        match step {
            PayInvoiceStep::Post(request) => step@ matches PayInvoiceStepView::Post {
                url,
                payload,
            } && {
                &&& url == request.url@
                &&& payload.federation_id == request.payload.federation_id.bytes@
                &&& payload.contract_id == request.payload.contract_id
            },
            PayInvoiceStep::NoEndpoint => step@ is NoEndpoint,
            PayInvoiceStep::Finished(Ok(preimage)) => step@ == PayInvoiceStepView::Finished(
                Ok(preimage@),
            ),
            PayInvoiceStep::Finished(Err(error)) => step@ == PayInvoiceStepView::Finished(
                Err(error@),
            ),
        },
{
}

/// A copy of a payment stands for the same payment, and its common part has the same fields.
pub proof fn law_copies_keep_every_field(
    machine: LightningPayStateMachine,
    copy: LightningPayStateMachine,
)
    requires
        call_ensures(LightningPayStateMachine::clone, (&machine,), copy),
    ensures
        copy@ == machine@,
        copy.common.operation_id == machine.common.operation_id,
        copy.common.federation_id.bytes@ == machine.common.federation_id.bytes@,
        copy.common.contract.recovery_key == machine.common.contract.recovery_key,
        copy.common.contract.contract_account.contract
            == machine.common.contract.contract_account.contract,
        copy.common.contract.contract_account.encoded@
            == machine.common.contract.contract_account.encoded@,
        copy.common.gateway_fee == machine.common.gateway_fee,
{
    law_common_shows_its_fields(machine.common);
    law_common_shows_its_fields(copy.common);
}

/// A copy of a transition stands for the same transition, and a copy of an outcome for the
/// same outcome.
pub proof fn law_copies_of_transitions_are_the_same(
    transition: StateTransition,
    copy: StateTransition,
    outcome: TransitionOutcome,
    outcome_copy: TransitionOutcome,
)
    requires
        call_ensures(StateTransition::clone, (&transition,), copy),
        call_ensures(TransitionOutcome::clone, (&outcome,), outcome_copy),
    ensures
        copy@ == transition@,
        outcome_copy@ == outcome@,
{
}

/// A reply that is read by itself says the same as within the payment: an error with the
/// status and the words of a refusal, or the body of a success without the character at
/// each end.
pub proof fn law_a_result_is_read_by_its_status(
    status: u16,
    body: String,
    result: Result<String, GatewayPayError>,
)
    requires
        call_ensures(
            LightningPayFunded::pay_invoice_result,
            (GatewayReply::Received { status, text: Some(body) },),
            result,
        ),
        100 <= status <= 999,
        200 <= status <= 299 ==> body@.len() >= 2,
        200 <= status <= 299 ==> body@[0] as u32 <= 0x7f,
        200 <= status <= 299 ==> body@[body@.len() - 1] as u32 <= 0x7f,
    ensures
        200 <= status <= 299 ==> (result matches Ok(preimage) && body@ == seq![body@[0]]
            + preimage@ + seq![body@[body@.len() - 1]]),
        !(200 <= status <= 299) ==> result == Err::<String, GatewayPayError>(
            GatewayPayError::GatewayInternalError {
                error_code: Some(status),
                error_message: body,
            },
        ),
{
}

/// A reply without a body is an error without a code, read by itself too.
pub proof fn law_a_result_without_body_is_an_error(
    status: u16,
    message: String,
    unsent: Result<String, GatewayPayError>,
    unread: Result<String, GatewayPayError>,
)
    requires
        call_ensures(
            LightningPayFunded::pay_invoice_result,
            (GatewayReply::SendFailed { message },),
            unsent,
        ),
        call_ensures(
            LightningPayFunded::pay_invoice_result,
            (GatewayReply::Received { status, text: None },),
            unread,
        ),
        200 <= status <= 299,
    ensures
        unsent == Err::<String, GatewayPayError>(
            GatewayPayError::GatewayInternalError { error_code: None, error_message: message },
        ),
        unread matches Err(
            GatewayPayError::GatewayInternalError { error_code: None, error_message },
        ) && error_message@ == "Error retrieving preimage from response"@,
{
}

/// A wait for the federation's report asks at the start and after every pause, pauses for
/// one second after every failure, and ends with the report and with nothing else. The
/// cancellation is asked for by the contract, the timeout by the height of the timelock.
pub proof fn law_a_wait_asks_pauses_and_ends(
    contract_id: ContractId,
    timelock: u32,
    event: PollEvent,
    cancellation: PollStep,
    timeout: PollStep,
)
    requires
        call_ensures(
            LightningPayRefundable::await_contract_cancellable,
            (event, contract_id),
            cancellation,
        ),
        call_ensures(LightningPayRefundable::await_contract_timeout, (event, timelock), timeout),
    ensures
        event is Started || event is Slept ==> {
            &&& cancellation matches PollStep::WaitOutgoingContractCancelled { contract_id: c }
            &&& c == contract_id
            &&& timeout matches PollStep::WaitBlockHeight { block_height }
            &&& block_height == timelock
        },
        event is Failed ==> {
            &&& cancellation matches PollStep::Sleep { seconds: c }
            &&& c == 1
            &&& timeout matches PollStep::Sleep { seconds: t }
            &&& t == 1
        },
        cancellation is Finished <==> event is Succeeded,
        timeout is Finished <==> event is Succeeded,
{
}

/// A transition's wait for a report is the one for its own contract or its own timelock.
pub proof fn law_a_transition_waits_for_its_own_report(
    transition: StateTransition,
    event: PollEvent,
    step: Option<PollStep>,
)
    requires
        call_ensures(StateTransition::poll_step, (&transition, event), step),
    ensures
        step is Some <==> transition is ContractCancelled || transition is ContractTimedOut,
        step matches Some(step) ==> {
            &&& step is Finished <==> event is Succeeded
            &&& event is Failed ==> (step matches PollStep::Sleep { seconds } && seconds == 1)
            &&& event is Started || event is Slept ==> {
                &&& transition is ContractCancelled ==> (step
                    matches PollStep::WaitOutgoingContractCancelled { contract_id } && contract_id
                    == transition->ContractCancelled_contract_id)
                &&& transition is ContractTimedOut ==> (step matches PollStep::WaitBlockHeight {
                    block_height,
                } && block_height == transition->ContractTimedOut_timelock)
            }
        },
{
}

/// A funding that fails, at either of its two questions, is a contract that was not created;
/// no transition but the one that waits for a funding asks these questions.
pub proof fn law_a_failed_funding_is_no_contract(
    transition: StateTransition,
    rejected: Option<FundingStep>,
    missing: Option<FundingStep>,
)
    requires
        call_ensures(
            StateTransition::funding_step,
            (&transition, FundingEvent::OutputFailed),
            rejected,
        ),
        call_ensures(
            StateTransition::funding_step,
            (&transition, FundingEvent::ContractMissing),
            missing,
        ),
    ensures
        transition is OutgoingContractFunded ==> {
            &&& rejected == Some(FundingStep::Finished(Err(GatewayPayError::OutgoingContractError)))
            &&& missing == Some(FundingStep::Finished(Err(GatewayPayError::OutgoingContractError)))
        },
        transition !is OutgoingContractFunded ==> rejected is None && missing is None,
{
}

/// The questions of a funding name the transaction's first output and the contract, and are
/// answered with the contract's timelock.
pub proof fn law_a_funding_asks_by_name(
    txid: TransactionId,
    contract_id: ContractId,
    account: OutgoingContractAccount,
    first: FundingStep,
    second: FundingStep,
    third: FundingStep,
    rejected: FundingStep,
    missing: FundingStep,
)
    requires
        call_ensures(
            LightningPayCreatedOutgoingLnContract::await_outgoing_contract_funded,
            (FundingEvent::Started, txid, contract_id),
            first,
        ),
        call_ensures(
            LightningPayCreatedOutgoingLnContract::await_outgoing_contract_funded,
            (FundingEvent::OutputAccepted, txid, contract_id),
            second,
        ),
        call_ensures(
            LightningPayCreatedOutgoingLnContract::await_outgoing_contract_funded,
            (FundingEvent::ContractFetched(account), txid, contract_id),
            third,
        ),
        call_ensures(
            LightningPayCreatedOutgoingLnContract::await_outgoing_contract_funded,
            (FundingEvent::OutputFailed, txid, contract_id),
            rejected,
        ),
        call_ensures(
            LightningPayCreatedOutgoingLnContract::await_outgoing_contract_funded,
            (FundingEvent::ContractMissing, txid, contract_id),
            missing,
        ),
    ensures
        first == (FundingStep::AwaitOutputOutcome {
            out_point: OutPoint { txid, out_idx: 0 },
            timeout_millis: 2147483647,
        }),
        second == (FundingStep::GetOutgoingContract { contract_id }),
        third == FundingStep::Finished(Ok(account.contract.timelock)),
        rejected == FundingStep::Finished(Err(GatewayPayError::OutgoingContractError)),
        missing == FundingStep::Finished(Err(GatewayPayError::OutgoingContractError)),
{
}

/// An outcome is accepted exactly by the transitions that wait for its kind.
pub proof fn law_outcomes_are_accepted_by_kind(
    transition: StateTransition,
    outcome: TransitionOutcome,
    accepted: bool,
)
    requires
        call_ensures(StateTransition::accepts_outcome, (&transition, &outcome), accepted),
    ensures
        accepted == transition@.accepts(outcome@),
        accepted <==> match outcome {
            TransitionOutcome::OutgoingContractFunded(_) => transition is OutgoingContractFunded,
            TransitionOutcome::OutgoingContractExecuted(_) =>
                transition is OutgoingContractExecuted,
            TransitionOutcome::RefundClaimed { .. } => transition is ContractCancelled
                || transition is ContractTimedOut,
            TransitionOutcome::RefundDecided(_) => transition is RefundDecided,
        },
{
}

/// Entering `Funded` keeps what the federation gave and what was chosen, whatever the
/// transition; a failed funding is canceled.
pub proof fn law_entering_funded(
    result: Result<u32, GatewayPayError>,
    old_state: LightningPayStateMachine,
    common: LightningPayCommon,
    contract_id: ContractId,
    gateway: LightningGateway,
    machine: LightningPayStateMachine,
)
    requires
        call_ensures(
            LightningPayCreatedOutgoingLnContract::transition_outgoing_contract_funded,
            (result, old_state, common, contract_id, gateway),
            machine,
        ),
    ensures
        machine.common == old_state.common,
        result is Err ==> machine.state is Canceled,
        result matches Ok(timelock) ==> {
            &&& machine.state matches LightningPayStates::Funded(funded)
            &&& funded.timelock == timelock
            &&& funded.gateway == gateway
            &&& funded.payload.contract_id == contract_id
            &&& funded.payload.federation_id == common.federation_id
            &&& funded.payment_hash
                == common.contract.contract_account.contract.invoice.payment_hash
        },
{
}

/// Entering `Success` keeps the preimage and records the payment; entering `Refundable`
/// keeps the reason, the contract and the timelock.
pub proof fn law_entering_success_or_refundable(
    result: Result<String, GatewayPayError>,
    old_state: LightningPayStateMachine,
    contract_id: ContractId,
    timelock: u32,
    payment_hash: sha256::Hash,
    common: LightningPayCommon,
    done: Completed,
)
    requires
        call_ensures(
            LightningPayFunded::transition_outgoing_contract_execution,
            (result, old_state, contract_id, timelock, payment_hash, common),
            done,
        ),
    ensures
        done.machine.common == old_state.common,
        result matches Ok(preimage) ==> {
            &&& done.machine.state matches LightningPayStates::Success(kept)
            &&& kept == preimage
            &&& done.payment_result matches Some(recorded)
            &&& recorded.payment_hash == payment_hash
            &&& recorded.contract_id == contract_id
            &&& recorded.fee == common.gateway_fee
            &&& recorded.payment_type == PayType::Lightning(old_state.common.operation_id)
        },
        result matches Err(why) ==> {
            &&& done.machine.state matches LightningPayStates::Refundable(refundable)
            &&& refundable.error == why
            &&& refundable.contract_id == contract_id
            &&& refundable.block_timelock == timelock
            &&& done.payment_result is None
        },
{
}

/// Entering `Refund` keeps the transaction and its outputs, entering `Refunded` the outputs;
/// a rejected refund is a failure that says so.
pub proof fn law_entering_refund_and_its_end(
    old_state: LightningPayStateMachine,
    txid: TransactionId,
    out_points: Vec<OutPoint>,
    refund: LightningPayStateMachine,
    result: Result<(), String>,
    end: LightningPayStateMachine,
)
    requires
        call_ensures(
            LightningPayRefundable::try_refund_outgoing_contract,
            (old_state, txid, out_points),
            refund,
        ),
        call_ensures(
            LightningPayRefund::transition_refund_success,
            (result, old_state, out_points),
            end,
        ),
    ensures
        refund.common == old_state.common,
        refund.state matches LightningPayStates::Refund(entered) && entered.txid == txid
            && entered.out_points == out_points,
        end.common == old_state.common,
        result is Ok ==> (end.state matches LightningPayStates::Refunded(handed_out) && handed_out
            == out_points),
        result is Err ==> (end.state matches LightningPayStates::Failure(reason) && reason@
            == "Refund Transaction was rejected."@),
{
}

/// The ways out of a state carry what the state remembers, and what all states share.
pub proof fn law_transitions_carry_what_the_state_remembers(
    machine: LightningPayStateMachine,
    transitions: Vec<StateTransition>,
)
    requires
        call_ensures(LightningPayStateMachine::transitions, (&machine,), transitions),
    ensures
        match machine.state {
            LightningPayStates::CreatedOutgoingLnContract(created) => {
                &&& transitions@.len() == 1
                &&& transitions@[0] matches StateTransition::OutgoingContractFunded {
                    txid,
                    contract_id,
                    common,
                    gateway,
                }
                &&& txid == created.funding_txid
                &&& contract_id == created.contract_id
                &&& common@ == machine.common@
                &&& gateway.api@ == created.gateway.api@
                &&& gateway.announcement@ == created.gateway.announcement@
            },
            LightningPayStates::Funded(funded) => {
                &&& transitions@.len() == 1
                &&& transitions@[0] matches StateTransition::OutgoingContractExecuted {
                    gateway,
                    payload,
                    contract_id,
                    timelock,
                    payment_hash,
                    common,
                }
                &&& gateway.api@ == funded.gateway.api@
                &&& gateway.announcement@ == funded.gateway.announcement@
                &&& payload.federation_id.bytes@ == funded.payload.federation_id.bytes@
                &&& payload.contract_id == funded.payload.contract_id
                &&& contract_id == funded.payload.contract_id
                &&& timelock == funded.timelock
                &&& payment_hash == funded.payment_hash
                &&& common@ == machine.common@
            },
            LightningPayStates::Refundable(refundable) => {
                &&& transitions@.len() == 2
                &&& transitions@[0] matches StateTransition::ContractCancelled {
                    contract_id,
                    common: c,
                }
                &&& contract_id == refundable.contract_id
                &&& c@ == machine.common@
                &&& transitions@[1] matches StateTransition::ContractTimedOut {
                    timelock,
                    common: t,
                }
                &&& timelock == refundable.block_timelock
                &&& t@ == machine.common@
            },
            LightningPayStates::Refund(refund) => {
                &&& transitions@.len() == 1
                &&& transitions@[0] matches StateTransition::RefundDecided {
                    common,
                    refund_txid,
                    refund_out_points,
                }
                &&& refund_txid == refund.txid
                &&& refund_out_points@ == refund.out_points@
                &&& common@ == machine.common@
            },
            LightningPayStates::Canceled
            | LightningPayStates::Success(_)
            | LightningPayStates::Refunded(_)
            | LightningPayStates::Failure(_) => transitions@.len() == 0,
        },
{
}

/// A payment's refund is claimed from its own account and signed with its own recovery key,
/// whichever of the two ways out of `Refundable` is taken.
pub proof fn law_a_payment_claims_its_own_refund(
    machine: LightningPayStateMachine,
    transitions: Vec<StateTransition>,
    i: int,
    claim: Option<RefundClaim>,
)
    requires
        machine.state is Refundable,
        call_ensures(LightningPayStateMachine::transitions, (&machine,), transitions),
        0 <= i < 2,
        call_ensures(StateTransition::refund_claim, (&transitions@[i],), claim),
    ensures
        claim matches Some(claim) && {
            &&& claim.account.contract == machine.common.contract.contract_account.contract
            &&& claim.account.encoded@ == machine.common.contract.contract_account.encoded@
            &&& claim.keys@ == seq![machine.common.contract.recovery_key]
            &&& claim.state_machines@.len() == 0
        },
{
    law_common_shows_its_fields(machine.common);
    law_common_shows_its_fields(transitions@[0]->ContractCancelled_common);
    law_common_shows_its_fields(transitions@[1]->ContractTimedOut_common);
}

/// An identifier that is handed in is handed on: to the payload, from the machine, and to
/// the wait for a refund.
pub proof fn law_names_are_handed_on(
    federation_id: FederationId,
    contract_id: ContractId,
    payload: PayInvoicePayload,
    machine: LightningPayStateMachine,
    operation_id: OperationId,
    common: LightningPayCommon,
    txid: TransactionId,
    wait: AwaitTxAccepted,
)
    requires
        call_ensures(PayInvoicePayload::new, (federation_id, contract_id), payload),
        call_ensures(LightningPayStateMachine::operation_id, (&machine,), operation_id),
        call_ensures(LightningPayRefund::await_refund_success, (&common, txid), wait),
    ensures
        payload.federation_id.bytes@ == federation_id.bytes@,
        payload.contract_id == contract_id,
        operation_id == machine.common.operation_id,
        wait.operation_id == common.operation_id,
        wait.txid == txid,
{
}

/// The words of an error: those of a gateway's failure show its code, as a number in
/// `Some(..)` or as `None`, and end with the gateway's own words.
pub proof fn law_errors_in_words(
    code: u16,
    digits: String,
    words: String,
    with_code: String,
    without_code: String,
    no_contract: String,
)
    requires
        call_ensures(crate::text::decimal_text, (code,), digits),
        call_ensures(
            GatewayPayError::message,
            (&GatewayPayError::GatewayInternalError {
                error_code: Some(code),
                error_message: words,
            },),
            with_code,
        ),
        call_ensures(
            GatewayPayError::message,
            (&GatewayPayError::GatewayInternalError { error_code: None, error_message: words },),
            without_code,
        ),
        call_ensures(
            GatewayPayError::message,
            (&GatewayPayError::OutgoingContractError,),
            no_contract,
        ),
    ensures
        with_code@ == "Lightning Gateway failed to pay invoice. ErrorCode: "@ + ("Some("@ + digits@
            + ")"@) + " ErrorMessage: "@ + words@,
        without_code@ == "Lightning Gateway failed to pay invoice. ErrorCode: "@ + "None"@
            + " ErrorMessage: "@ + words@,
        no_contract@ == "OutgoingContract was not created in the federation"@,
{
}

/// A number is written in decimal: its last digit is its remainder by ten, and the digits
/// before it are those of its tenth.
pub proof fn law_numbers_are_written_in_decimal(n: u16, digits: String, tenth: String)
    requires
        call_ensures(crate::text::decimal_text, (n,), digits),
        call_ensures(crate::text::decimal_text, ((n / 10) as u16,), tenth),
    ensures
        digits@.len() > 0,
        digits@.last() as int == 48 + n % 10,
        n < 10 ==> digits@.len() == 1,
        n >= 10 ==> digits@.drop_last() == tenth@,
{
    if n >= 10 {
        assert(digits@.drop_last() =~= tenth@);
    }
}

/// A text has ends to take off exactly when it has two characters and both the first and
/// the last of them take one byte.
pub proof fn law_texts_with_ends(text: &str, wrapped: bool)
    requires
        call_ensures(crate::text::is_wrapped_text, (text,), wrapped),
    ensures
        wrapped <==> text@.len() >= 2 && text@[0] as u32 <= 0x7f && text@[text@.len() - 1] as u32
            <= 0x7f,
{
}

} // verus!
