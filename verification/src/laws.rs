//! What holds of a payment as a whole.

use vstd::prelude::*;

use crate::created::{FundingEvent, FundingStep, FUNDING_TIMEOUT_MILLIS};
use crate::error::{GatewayPayError, GatewayPayErrorView};
use crate::funded::{GatewayReply, PayInvoiceEvent, PayInvoiceStepView};
use crate::refund::AwaitTxAccepted;
use crate::refundable::{PollEvent, PollStep, RETRY_SECONDS};
use crate::states::{LightningPayStateMachineView, LightningPayStatesView};
use crate::transition::{
    PayType, PaymentResult, StateTransitionView, TransitionOutcome, TransitionOutcomeView,
};
use crate::types::{
    ContractId, LightningGatewayView, OutPoint, OutgoingContractAccount, PayInvoicePayloadView,
    TransactionId,
};

verus! {

impl LightningPayStatesView {
    /// The arrows of the state diagram.
    pub open spec fn leads_to(self, next: LightningPayStatesView) -> bool {
        match self {
            LightningPayStatesView::CreatedOutgoingLnContract { .. } => next is Canceled
                || next is Funded,
            LightningPayStatesView::Funded { .. } => next is Success || next is Refundable,
            LightningPayStatesView::Refundable { .. } => next is Refund,
            LightningPayStatesView::Refund { .. } => next is Refunded || next is Failure,
            _ => false,
        }
    }

    /// The states in which a payment has come to its end.
    pub open spec fn is_final(self) -> bool {
        ||| self is Canceled
        ||| self is Success
        ||| self is Refunded
        ||| self is Failure
    }

    /// How many transitions can still follow.
    pub open spec fn transitions_left(self) -> nat {
        match self {
            LightningPayStatesView::CreatedOutgoingLnContract { .. } => 4,
            LightningPayStatesView::Funded { .. } => 3,
            LightningPayStatesView::Refundable { .. } => 2,
            LightningPayStatesView::Refund { .. } => 1,
            _ => 0,
        }
    }
}

impl LightningPayStateMachineView {
    /// Whether the machine can be `next` after its `i`-th transition, on `outcome`.
    pub open spec fn steps_by(
        self,
        i: int,
        outcome: TransitionOutcomeView,
        next: LightningPayStateMachineView,
    ) -> bool {
        &&& 0 <= i < self.transitions().len()
        &&& self.transitions()[i].accepts(outcome)
        &&& next == self.entering(self.transitions()[i].next_state(outcome))
    }

    /// Whether the machine can be `next` after one transition.
    pub open spec fn steps_to(self, next: LightningPayStateMachineView) -> bool {
        exists|i: int, outcome: TransitionOutcomeView| self.steps_by(i, outcome, next)
    }

    /// Whether `run` is a sequence of machines, each one transition after the one before.
    pub open spec fn is_run(run: Seq<LightningPayStateMachineView>) -> bool {
        &&& run.len() > 0
        &&& forall|i: int| 0 <= i < run.len() - 1 ==> (#[trigger] run[i]).steps_to(run[i + 1])
    }
}

/// Every transition follows an arrow of the state diagram and leaves alone what all
/// states of the payment share.
pub proof fn law_transitions_follow_the_diagram(
    machine: LightningPayStateMachineView,
    next: LightningPayStateMachineView,
)
    requires
        machine.steps_to(next),
    ensures
        machine.state.leads_to(next.state),
        next.common == machine.common,
{
}

/// The outcome chooses the arrow: an accepted funding transaction leads to `Funded` and
/// a failed one to `Canceled`, a payment by the gateway to `Success` and its failure to
/// `Refundable`, a submitted claim to `Refund`, an accepted refund to `Refunded` and a
/// rejected one to `Failure`.
pub proof fn law_outcomes_choose_the_arrow(
    machine: LightningPayStateMachineView,
    i: int,
    outcome: TransitionOutcomeView,
    next: LightningPayStateMachineView,
)
    requires
        machine.steps_by(i, outcome, next),
    ensures
        match outcome {
            TransitionOutcomeView::OutgoingContractFunded(result) => {
                &&& machine.state is CreatedOutgoingLnContract
                &&& result is Ok <==> next.state is Funded
                &&& result is Err <==> next.state is Canceled
            },
            TransitionOutcomeView::OutgoingContractExecuted(result) => {
                &&& machine.state is Funded
                &&& result is Ok <==> next.state is Success
                &&& result is Err <==> next.state is Refundable
            },
            TransitionOutcomeView::RefundClaimed { .. } => {
                &&& machine.state is Refundable
                &&& next.state is Refund
            },
            TransitionOutcomeView::RefundDecided(result) => {
                &&& machine.state is Refund
                &&& result is Ok <==> next.state is Refunded
                &&& result is Err <==> next.state is Failure
            },
        },
{
}

/// A machine's own transitions can be completed from it: the one that waits for a funding
/// transaction is a way out of no state but the one that has submitted it.
pub proof fn law_own_transitions_can_be_completed(machine: LightningPayStateMachineView, i: int)
    requires
        0 <= i < machine.transitions().len(),
    ensures
        machine.transitions()[i] is OutgoingContractFunded
            ==> machine.state is CreatedOutgoingLnContract,
{
}

/// Every arrow of the state diagram can be followed: from every state, to every state
/// that an arrow leads to, whatever of the next state is left to the outcome.
pub proof fn law_every_arrow_can_be_followed(
    machine: LightningPayStateMachineView,
    timelock: u32,
    preimage: Seq<char>,
    error: GatewayPayErrorView,
    txid: TransactionId,
    out_points: Seq<OutPoint>,
    reason: Seq<char>,
)
    ensures
        match machine.state {
            LightningPayStatesView::CreatedOutgoingLnContract { contract_id, gateway, .. } => {
                &&& machine.steps_to(machine.entering(LightningPayStatesView::Canceled))
                &&& machine.steps_to(
                    machine.entering(
                        LightningPayStatesView::Funded {
                            payload: PayInvoicePayloadView {
                                federation_id: machine.common.federation_id,
                                contract_id,
                            },
                            gateway,
                            timelock,
                            payment_hash: machine.common.payment_hash(),
                        },
                    ),
                )
            },
            LightningPayStatesView::Funded { payload, timelock, .. } => {
                &&& machine.steps_to(
                    machine.entering(LightningPayStatesView::Success { preimage }),
                )
                &&& machine.steps_to(
                    machine.entering(
                        LightningPayStatesView::Refundable {
                            contract_id: payload.contract_id,
                            block_timelock: timelock,
                            error,
                        },
                    ),
                )
            },
            LightningPayStatesView::Refundable { .. } => machine.steps_to(
                machine.entering(LightningPayStatesView::Refund { txid, out_points }),
            ),
            LightningPayStatesView::Refund { out_points, .. } => {
                &&& machine.steps_to(
                    machine.entering(LightningPayStatesView::Refunded { out_points }),
                )
                &&& machine.steps_to(
                    machine.entering(
                        LightningPayStatesView::Failure {
                            reason: "Refund Transaction was rejected."@,
                        },
                    ),
                )
            },
            _ => true,
        },
{
    let outcomes = seq![
        TransitionOutcomeView::OutgoingContractFunded(Err(error)),
        TransitionOutcomeView::OutgoingContractFunded(Ok(timelock)),
        TransitionOutcomeView::OutgoingContractExecuted(Ok(preimage)),
        TransitionOutcomeView::OutgoingContractExecuted(Err(error)),
        TransitionOutcomeView::RefundClaimed { txid, out_points },
        TransitionOutcomeView::RefundDecided(Ok(())),
        TransitionOutcomeView::RefundDecided(Err(reason)),
    ];
    if !machine.state.is_final() {
        assert forall|k: int|
            0 <= k < outcomes.len() && machine.transitions()[0].accepts(
                #[trigger] outcomes[k],
            ) implies machine.steps_to(
            machine.entering(machine.transitions()[0].next_state(outcomes[k])),
        ) by {
            assert(machine.steps_by(
                0,
                outcomes[k],
                machine.entering(machine.transitions()[0].next_state(outcomes[k])),
            ));
        }
        assert(outcomes[0] == TransitionOutcomeView::OutgoingContractFunded(Err(error)));
        assert(outcomes[1] == TransitionOutcomeView::OutgoingContractFunded(Ok(timelock)));
        assert(outcomes[2] == TransitionOutcomeView::OutgoingContractExecuted(Ok(preimage)));
        assert(outcomes[3] == TransitionOutcomeView::OutgoingContractExecuted(Err(error)));
        assert(outcomes[4] == TransitionOutcomeView::RefundClaimed { txid, out_points });
        assert(outcomes[5] == TransitionOutcomeView::RefundDecided(Ok(())));
        assert(outcomes[6] == TransitionOutcomeView::RefundDecided(Err(reason)));
    }
}

/// Nothing is waited for exactly in the final states, and no transition leaves them.
/// Two things are waited for in `Refundable`, one in each of the other states.
pub proof fn law_final_states_are_left_by_nothing(machine: LightningPayStateMachineView)
    ensures
        machine.state.is_final() <==> machine.transitions().len() == 0,
        machine.state is Refundable <==> machine.transitions().len() == 2,
        machine.transitions().len() <= 2,
        machine.state.is_final() ==> forall|next: LightningPayStateMachineView|
            !machine.steps_to(next),
{
}

/// A payment can be refunded in one way only: whether the gateway cancels the contract
/// or the contract times out, the same claim is submitted and the same state follows.
/// Nothing is claimed in any other state.
pub proof fn law_refunds_are_the_same_either_way(
    machine: LightningPayStateMachineView,
    outcome: TransitionOutcomeView,
)
    ensures
        machine.state is Refundable ==> {
            let cancelled = machine.transitions()[0];
            let timed_out = machine.transitions()[1];
            &&& cancelled.refund_claim() == Some(machine.common.refund_claim())
            &&& timed_out.refund_claim() == Some(machine.common.refund_claim())
            &&& cancelled.accepts(outcome) == timed_out.accepts(outcome)
            &&& cancelled.accepts(outcome) ==> cancelled.next_state(outcome)
                == timed_out.next_state(outcome)
        },
        machine.state !is Refundable ==> forall|i: int|
            0 <= i < machine.transitions().len() ==> (
            #[trigger] machine.transitions()[i]).refund_claim() is None,
{
}

/// A payment is recorded exactly when the machine enters `Success`, under the contract
/// that was funded and the operation that the machine belongs to.
pub proof fn law_success_is_recorded(
    machine: LightningPayStateMachineView,
    i: int,
    outcome: TransitionOutcomeView,
    next: LightningPayStateMachineView,
)
    requires
        machine.steps_by(i, outcome, next),
    ensures
        machine.transitions()[i].payment_result(outcome, machine) == match (
            machine.state,
            next.state,
        ) {
            (
                LightningPayStatesView::Funded { payload, payment_hash, .. },
                LightningPayStatesView::Success { .. },
            ) => Some(
                PaymentResult {
                    payment_hash,
                    payment_type: PayType::Lightning(machine.common.operation_id),
                    contract_id: payload.contract_id,
                    fee: machine.common.gateway_fee,
                },
            ),
            _ => None,
        },
        next.state is Success ==> machine.state is Funded,
{
}

/// What all states of a payment share never changes.
pub proof fn law_runs_keep_what_is_common(run: Seq<LightningPayStateMachineView>, i: int)
    requires
        LightningPayStateMachineView::is_run(run),
        0 <= i < run.len(),
    ensures
        run[i].common == run[0].common,
    decreases i,
{
    if i > 0 {
        law_runs_keep_what_is_common(run, i - 1);
        assert(run[i - 1].steps_to(run[i]));
    }
}

/// A payment comes to its end: each transition leaves fewer to follow, so that no run
/// has more than four.
pub proof fn law_runs_end(run: Seq<LightningPayStateMachineView>, i: int)
    requires
        LightningPayStateMachineView::is_run(run),
        0 <= i < run.len(),
    ensures
        run[i].state.transitions_left() + i <= run[0].state.transitions_left(),
        i <= 4,
{
    lemma_transitions_left(run, 0, i);
}

/// Each transition of a run leaves fewer to follow.
proof fn lemma_transitions_left(run: Seq<LightningPayStateMachineView>, i: int, j: int)
    requires
        LightningPayStateMachineView::is_run(run),
        0 <= i <= j < run.len(),
    ensures
        run[j].state.transitions_left() + (j - i) <= run[i].state.transitions_left(),
    decreases j,
{
    if i < j {
        lemma_transitions_left(run, i, j - 1);
        assert(run[j - 1].steps_to(run[j]));
    }
}

/// A run that cannot be continued has come to a final state, and the other way round.
pub proof fn law_runs_stop_in_final_states_only(run: Seq<LightningPayStateMachineView>)
    requires
        LightningPayStateMachineView::is_run(run),
    ensures
        run.last().state.is_final() <==> forall|next: LightningPayStateMachineView|
            !#[trigger] LightningPayStateMachineView::is_run(run.push(next)),
{
    let machine = run.last();
    let n = run.len() as int;
    if machine.state.is_final() {
        assert forall|next: LightningPayStateMachineView| !#[trigger]
        LightningPayStateMachineView::is_run(run.push(next)) by {
            let longer = run.push(next);
            assert(longer[n - 1] == machine);
            assert(longer[n] == next);
            assert(!longer[n - 1].steps_to(longer[n]));
        }
    } else {
        let outcome = match machine.state {
            LightningPayStatesView::CreatedOutgoingLnContract { .. } =>
                TransitionOutcomeView::OutgoingContractFunded(Ok(0)),
            LightningPayStatesView::Funded { .. } =>
                TransitionOutcomeView::OutgoingContractExecuted(Ok(seq![])),
            LightningPayStatesView::Refundable { contract_id, .. } =>
                TransitionOutcomeView::RefundClaimed {
                    txid: TransactionId { bytes: contract_id.bytes },
                    out_points: seq![],
                },
            _ => TransitionOutcomeView::RefundDecided(Ok(())),
        };
        let next = machine.entering(machine.transitions()[0].next_state(outcome));
        assert(machine.steps_by(0, outcome, next));
        let longer = run.push(next);
        assert forall|i: int| 0 <= i < longer.len() - 1 implies (#[trigger] longer[i]).steps_to(
            longer[i + 1],
        ) by {
            if i < n - 1 {
                assert(longer[i] == run[i]);
                assert(longer[i + 1] == run[i + 1]);
            }
        }
        assert(LightningPayStateMachineView::is_run(longer));
    }
}

/// Where a run of a payment stands after `i` transitions, and how that state goes back
/// to the one that the payment began with: the gateway is asked to pay from the contract
/// that was created, its failure leaves that contract to be refunded at the timelock
/// that the federation gave, and the outputs of the refund are those that were claimed.
pub open spec fn goes_back_to_its_contract(
    run: Seq<LightningPayStateMachineView>,
    i: int,
    contract_id: ContractId,
    gateway: LightningGatewayView,
) -> bool {
    match run[i].state {
        LightningPayStatesView::CreatedOutgoingLnContract { .. } => i == 0,
        LightningPayStatesView::Canceled => i == 1,
        LightningPayStatesView::Funded { payload, gateway: asked, payment_hash, .. } => {
            &&& i == 1
            &&& payload == (PayInvoicePayloadView {
                federation_id: run[0].common.federation_id,
                contract_id,
            })
            &&& asked == gateway
            &&& payment_hash == run[0].common.payment_hash()
        },
        LightningPayStatesView::Success { .. } => i == 2 && run[1].state is Funded,
        LightningPayStatesView::Refundable { contract_id: refunded, block_timelock, .. } => {
            &&& i == 2
            &&& refunded == contract_id
            &&& run[1].state matches LightningPayStatesView::Funded { timelock, .. }
                && timelock == block_timelock
        },
        LightningPayStatesView::Refund { .. } => i == 3 && run[2].state is Refundable,
        LightningPayStatesView::Refunded { out_points } => {
            &&& i == 4
            &&& run[3].state matches LightningPayStatesView::Refund { out_points: claimed, .. }
                && claimed == out_points
        },
        LightningPayStatesView::Failure { reason } => {
            &&& i == 4
            &&& run[3].state is Refund
            &&& reason == "Refund Transaction was rejected."@
        },
    }
}

/// Every state of a payment goes back to the contract that the payment began with.
pub proof fn law_runs_go_back_to_their_contract(
    run: Seq<LightningPayStateMachineView>,
    i: int,
    funding_txid: TransactionId,
    contract_id: ContractId,
    gateway: LightningGatewayView,
)
    requires
        LightningPayStateMachineView::is_run(run),
        run[0].state == (LightningPayStatesView::CreatedOutgoingLnContract {
            funding_txid,
            contract_id,
            gateway,
        }),
        0 <= i < run.len(),
    ensures
        goes_back_to_its_contract(run, i, contract_id, gateway),
    decreases i,
{
    if i > 0 {
        law_runs_go_back_to_their_contract(run, i - 1, funding_txid, contract_id, gateway);
        law_runs_keep_what_is_common(run, i - 1);
        assert(run[i - 1].steps_to(run[i]));
    }
}

/// The only payment that a run can record is the one it was begun for: of the invoice
/// that the contract pays, from that contract, at the fee that was agreed on.
pub proof fn law_runs_record_their_own_payment(
    run: Seq<LightningPayStateMachineView>,
    i: int,
    k: int,
    outcome: TransitionOutcomeView,
    funding_txid: TransactionId,
    contract_id: ContractId,
    gateway: LightningGatewayView,
)
    requires
        LightningPayStateMachineView::is_run(run),
        run[0].state == (LightningPayStatesView::CreatedOutgoingLnContract {
            funding_txid,
            contract_id,
            gateway,
        }),
        0 <= i < run.len(),
        0 <= k < run[i].transitions().len(),
        run[i].transitions()[k].accepts(outcome),
    ensures
        match run[i].transitions()[k].payment_result(outcome, run[i]) {
            Some(recorded) => recorded == (PaymentResult {
                payment_hash: run[0].common.payment_hash(),
                payment_type: PayType::Lightning(run[0].common.operation_id),
                contract_id,
                fee: run[0].common.gateway_fee,
            }),
            None => true,
        },
{
    law_runs_keep_what_is_common(run, i);
    law_runs_go_back_to_their_contract(run, i, funding_txid, contract_id, gateway);
}

/// A run with what was done at each of its steps: `steps[i]` holds the transition that
/// was completed and its outcome.
pub open spec fn is_execution(
    run: Seq<LightningPayStateMachineView>,
    steps: Seq<(int, TransitionOutcomeView)>,
) -> bool {
    &&& run.len() == steps.len() + 1
    &&& forall|i: int|
        0 <= i < steps.len() ==> (#[trigger] run[i]).steps_by(steps[i].0, steps[i].1, run[i + 1])
}

/// Whether a payment is recorded at step `i`.
pub open spec fn records_at(
    run: Seq<LightningPayStateMachineView>,
    steps: Seq<(int, TransitionOutcomeView)>,
    i: int,
) -> bool {
    run[i].transitions()[steps[i].0].payment_result(steps[i].1, run[i]) is Some
}

/// Whether a refund is claimed at step `i`.
pub open spec fn claims_at(
    run: Seq<LightningPayStateMachineView>,
    steps: Seq<(int, TransitionOutcomeView)>,
    i: int,
) -> bool {
    run[i].transitions()[steps[i].0].refund_claim() is Some
}

/// A payment that is recorded is never refunded, and a refunded one is never recorded.
/// Either happens at one step at most.
pub proof fn law_a_payment_is_recorded_or_refunded_once(
    run: Seq<LightningPayStateMachineView>,
    steps: Seq<(int, TransitionOutcomeView)>,
    i: int,
    j: int,
)
    requires
        is_execution(run, steps),
        0 <= i < steps.len(),
        0 <= j < steps.len(),
    ensures
        !(records_at(run, steps, i) && claims_at(run, steps, j)),
        records_at(run, steps, i) && records_at(run, steps, j) ==> i == j,
        claims_at(run, steps, i) && claims_at(run, steps, j) ==> i == j,
{
    assert forall|k: int| 0 <= k < run.len() - 1 implies (#[trigger] run[k]).steps_to(
        run[k + 1],
    ) by {
        assert(run[k].steps_by(steps[k].0, steps[k].1, run[k + 1]));
    }
    assert(run[i].steps_by(steps[i].0, steps[i].1, run[i + 1]));
    assert(run[j].steps_by(steps[j].0, steps[j].1, run[j + 1]));
    if i < j {
        lemma_transitions_left(run, i, j);
        lemma_transitions_left(run, i + 1, j);
    }
    if j < i {
        lemma_transitions_left(run, j, i);
        lemma_transitions_left(run, j + 1, i);
    }
}

/// A payment that the gateway fails is refunded at the timelock that the federation gave
/// for the contract when it was funded.
pub proof fn law_refunds_wait_for_the_contracts_timelock(
    run: Seq<LightningPayStateMachineView>,
    funding_txid: TransactionId,
    contract_id: ContractId,
    gateway: LightningGatewayView,
)
    requires
        LightningPayStateMachineView::is_run(run),
        run.len() >= 3,
        run[0].state == (LightningPayStatesView::CreatedOutgoingLnContract {
            funding_txid,
            contract_id,
            gateway,
        }),
        run[2].state is Refundable,
    ensures
        run[2].transitions() == seq![
            StateTransitionView::ContractCancelled { contract_id, common: run[0].common },
            StateTransitionView::ContractTimedOut {
                timelock: run[1].state->Funded_timelock,
                common: run[0].common,
            },
        ],
        run[0].steps_by(
            0,
            TransitionOutcomeView::OutgoingContractFunded(Ok(run[1].state->Funded_timelock)),
            run[1],
        ),
{
    law_runs_keep_what_is_common(run, 2);
    law_runs_keep_what_is_common(run, 1);
    law_runs_go_back_to_their_contract(run, 2, funding_txid, contract_id, gateway);
    law_runs_go_back_to_their_contract(run, 1, funding_txid, contract_id, gateway);
}

/// The gateway's reply decides a payment: it succeeds when the reply reports success and
/// can be read, with the reply's body without the character at each end as its preimage.
/// A refusal is kept as the reason for the refund, with its status code and its words.
pub proof fn law_the_reply_decides_the_payment(
    machine: LightningPayStateMachineView,
    reply: GatewayReply,
)
    requires
        machine.state is Funded,
        reply.is_readable(),
    ensures
        ({
            let outcome = TransitionOutcomeView::OutgoingContractExecuted(reply.payment());
            let next = machine.transitions()[0].next_state(outcome);
            match reply {
                GatewayReply::Received { status, text: Some(text) } => if
                    crate::http::is_success_code(status) {
                    next == LightningPayStatesView::Success {
                        preimage: crate::text::unwrapped(text@),
                    }
                } else {
                    next matches LightningPayStatesView::Refundable { error, .. } && error
                        == (GatewayPayErrorView::GatewayInternalError {
                        error_code: Some(status),
                        error_message: text@,
                    })
                },
                GatewayReply::Received { text: None, .. } => {
                    next matches LightningPayStatesView::Refundable { error, .. } && error
                        == (GatewayPayErrorView::GatewayInternalError {
                        error_code: None,
                        error_message: "Error retrieving preimage from response"@,
                    })
                },
                GatewayReply::SendFailed { message } => {
                    next matches LightningPayStatesView::Refundable { error, .. } && error
                        == (GatewayPayErrorView::GatewayInternalError {
                        error_code: None,
                        error_message: message@,
                    })
                },
            }
        }),
{
}

/// The result of waiting for a contract to be funded, where the federation accepts the
/// output or not and then hands the contract out or not.
pub open spec fn funding_result(
    txid: TransactionId,
    contract_id: ContractId,
    accepted: bool,
    fetched: Option<OutgoingContractAccount>,
) -> Result<u32, GatewayPayError> {
    let decided = if accepted {
        FundingEvent::OutputAccepted
    } else {
        FundingEvent::OutputFailed
    };
    let answered = match fetched {
        Some(account) => FundingEvent::ContractFetched(account),
        None => FundingEvent::ContractMissing,
    };
    match FundingStep::after(decided, txid, contract_id) {
        FundingStep::Finished(result) => result,
        _ => FundingStep::after(answered, txid, contract_id)->Finished_0,
    }
}

/// A contract is funded when the federation has both accepted the first output of the
/// funding transaction and handed the contract out; its timelock is the one that the
/// federation gives. Otherwise the contract was not created.
pub proof fn law_funding_needs_both_answers(
    txid: TransactionId,
    contract_id: ContractId,
    accepted: bool,
    fetched: Option<OutgoingContractAccount>,
)
    ensures
        FundingStep::after(FundingEvent::Started, txid, contract_id)
            == (FundingStep::AwaitOutputOutcome {
            out_point: OutPoint { txid, out_idx: 0 },
            timeout_millis: FUNDING_TIMEOUT_MILLIS,
        }),
        FundingStep::after(FundingEvent::OutputAccepted, txid, contract_id)
            == (FundingStep::GetOutgoingContract { contract_id }),
        funding_result(txid, contract_id, accepted, fetched) == match fetched {
            Some(account) if accepted => Ok::<u32, GatewayPayError>(account.contract.timelock),
            _ => Err(GatewayPayError::OutgoingContractError),
        },
{
}

/// The federation's two answers decide on the funding: from the created contract, the
/// payment goes on with the timelock of the contract that was handed out exactly when both
/// answers came, and is canceled otherwise.
pub proof fn law_the_answers_decide_the_funding(
    machine: LightningPayStateMachineView,
    funding_txid: TransactionId,
    contract_id: ContractId,
    gateway: LightningGatewayView,
    accepted: bool,
    fetched: Option<OutgoingContractAccount>,
)
    requires
        machine.state == (LightningPayStatesView::CreatedOutgoingLnContract {
            funding_txid,
            contract_id,
            gateway,
        }),
    ensures
        ({
            let result = funding_result(funding_txid, contract_id, accepted, fetched);
            let outcome = TransitionOutcome::OutgoingContractFunded(result)@;
            let next = machine.transitions()[0].next_state(outcome);
            &&& machine.steps_by(0, outcome, machine.entering(next))
            &&& next == match fetched {
                Some(account) if accepted => LightningPayStatesView::Funded {
                    payload: PayInvoicePayloadView {
                        federation_id: machine.common.federation_id,
                        contract_id,
                    },
                    gateway,
                    timelock: account.contract.timelock,
                    payment_hash: machine.common.payment_hash(),
                },
                _ => LightningPayStatesView::Canceled,
            }
        }),
{
}

/// Every transition of a machine waits for what its state says, and for nothing else: a
/// created contract for its funding, a funded one for the gateway, a refundable one for
/// its cancellation in the first transition and for its timelock in the second, and a
/// refund for its transaction.
pub proof fn law_transitions_wait_for_what_their_state_says(
    machine: LightningPayStateMachineView,
    i: int,
    funding: FundingEvent,
    paying: PayInvoiceEvent,
    poll: PollEvent,
)
    requires
        0 <= i < machine.transitions().len(),
    ensures
        machine.transitions()[i].funding_step(funding) == match machine.state {
            LightningPayStatesView::CreatedOutgoingLnContract {
                funding_txid,
                contract_id,
                ..
            } => Some(FundingStep::after(funding, funding_txid, contract_id)),
            _ => None,
        },
        machine.transitions()[i].pay_invoice_step(paying) == match machine.state {
            LightningPayStatesView::Funded { gateway, payload, .. } => Some(
                PayInvoiceStepView::after(paying, gateway, payload),
            ),
            _ => None,
        },
        machine.transitions()[i].poll_step(poll) == match machine.state {
            LightningPayStatesView::Refundable { contract_id, block_timelock, .. } => Some(
                PollStep::after(
                    poll,
                    if i == 0 {
                        PollStep::WaitOutgoingContractCancelled { contract_id }
                    } else {
                        PollStep::WaitBlockHeight { block_height: block_timelock as u64 }
                    },
                ),
            ),
            _ => None,
        },
        machine.transitions()[i].refund_wait() == match machine.state {
            LightningPayStatesView::Refund { txid, .. } => Some(
                AwaitTxAccepted { operation_id: machine.common.operation_id, txid },
            ),
            _ => None,
        },
{
}

/// The steps of a wait that begins with `event`, where the federation answers its
/// requests by `answers`: `true` where it reports, `false` where it could not be asked.
pub open spec fn polling(event: PollEvent, request: PollStep, answers: Seq<bool>) -> Seq<PollStep>
    decreases
            answers.len(),
            if event is Failed {
                1int
            } else {
                0int
            },
{
    let step = PollStep::after(event, request);
    match event {
        PollEvent::Succeeded => seq![step],
        PollEvent::Failed => seq![step] + polling(PollEvent::Slept, request, answers),
        _ => if answers.len() == 0 {
            seq![step]
        } else if answers[0] {
            seq![step] + polling(PollEvent::Succeeded, request, answers.drop_first())
        } else {
            seq![step] + polling(PollEvent::Failed, request, answers.drop_first())
        },
    }
}

/// The steps of a wait up to the next request.
proof fn lemma_polling_unfolds(event: PollEvent, request: PollStep, answers: Seq<bool>)
    requires
        event is Started || event is Slept,
    ensures
        polling(event, request, answers) == if answers.len() == 0 {
            seq![request]
        } else if answers[0] {
            seq![request, PollStep::Finished]
        } else {
            seq![request, PollStep::Sleep { seconds: RETRY_SECONDS }] + polling(
                PollEvent::Slept,
                request,
                answers.drop_first(),
            )
        },
{
    if answers.len() > 0 {
        let rest = answers.drop_first();
        let later = polling(PollEvent::Slept, request, rest);
        let pause = PollStep::Sleep { seconds: RETRY_SECONDS };
        if answers[0] {
            assert(polling(PollEvent::Succeeded, request, rest) == seq![PollStep::Finished]);
            assert(seq![request] + seq![PollStep::Finished] =~= seq![request, PollStep::Finished]);
        } else {
            assert(polling(PollEvent::Failed, request, rest) == seq![pause] + later);
            assert(seq![request] + (seq![pause] + later) =~= seq![request, pause] + later);
        }
    }
}

/// A wait goes on until the federation reports: after every answer that fails it pauses
/// and puts the same request again.
pub proof fn law_polling_goes_on_until_it_succeeds(
    event: PollEvent,
    request: PollStep,
    answers: Seq<bool>,
)
    requires
        event is Started || event is Slept,
        request.is_request(),
        forall|i: int| 0 <= i < answers.len() ==> !answers[i],
    ensures
        polling(event, request, answers).len() == 2 * answers.len() + 1,
        forall|i: int|
            0 <= i < polling(event, request, answers).len() ==> #[trigger] polling(
                event,
                request,
                answers,
            )[i] == if i % 2 == 0 {
                request
            } else {
                PollStep::Sleep { seconds: RETRY_SECONDS }
            },
        polling(event, request, answers.push(true)) == polling(event, request, answers).push(
            PollStep::Finished,
        ),
    decreases answers.len(),
{
    let steps = polling(event, request, answers);
    let longer = polling(event, request, answers.push(true));
    lemma_polling_unfolds(event, request, answers);
    lemma_polling_unfolds(event, request, answers.push(true));
    if answers.len() == 0 {
        assert(longer =~= steps.push(PollStep::Finished));
    } else {
        let rest = answers.drop_first();
        let later = polling(PollEvent::Slept, request, rest);
        let pause = PollStep::Sleep { seconds: RETRY_SECONDS };
        assert forall|i: int| 0 <= i < rest.len() implies !rest[i] by {
            assert(rest[i] == answers[i + 1]);
        }
        law_polling_goes_on_until_it_succeeds(PollEvent::Slept, request, rest);
        assert(answers.push(true)[0] == answers[0]);
        assert(answers.push(true).drop_first() =~= rest.push(true));
        assert(longer =~= steps.push(PollStep::Finished));
        assert forall|i: int| 0 <= i < steps.len() implies #[trigger] steps[i] == if i % 2 == 0 {
            request
        } else {
            pause
        } by {
            if i >= 2 {
                assert(steps[i] == later[i - 2]);
            }
        }
    }
}

} // verus!
