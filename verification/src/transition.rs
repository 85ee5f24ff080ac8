//! How a payment moves on: what is waited for in each state, and which state follows
//! on each outcome.

use bitcoin_hashes::sha256;
use vstd::prelude::*;

use crate::error::{GatewayPayError, GatewayPayErrorView};
use crate::states::{
    LightningPayCommon, LightningPayCommonView, LightningPayStateMachine,
    LightningPayStateMachineView, LightningPayStatesView,
};
use crate::types::{
    Amount, ContractId, KeyPair, LightningGateway, LightningGatewayView, OperationId, OutPoint,
    OutgoingContractAccount, OutgoingContractAccountView, PayInvoicePayload, PayInvoicePayloadView,
    TransactionId,
};

verus! {

/// One way out of a state: what is waited for, with all that is needed to enter the
/// next state when it has happened.
#[derive(PartialEq, Eq)]
pub enum StateTransition {
    /// The federation decides on the transaction that funds the contract.
    OutgoingContractFunded {
        txid: TransactionId,
        contract_id: ContractId,
        common: LightningPayCommon,
        gateway: LightningGateway,
    },
    /// The gateway answers the request to pay.
    OutgoingContractExecuted {
        gateway: LightningGateway,
        payload: PayInvoicePayload,
        contract_id: ContractId,
        timelock: u32,
        payment_hash: sha256::Hash,
        common: LightningPayCommon,
    },
    /// The gateway cancels the contract.
    ContractCancelled { contract_id: ContractId, common: LightningPayCommon },
    /// The federation reaches the contract's timelock.
    ContractTimedOut { timelock: u32, common: LightningPayCommon },
    /// The federation decides on the transaction that takes the money back.
    RefundDecided {
        common: LightningPayCommon,
        refund_txid: TransactionId,
        refund_out_points: Vec<OutPoint>,
    },
}

/// What came of waiting for a transition.
#[derive(Debug, PartialEq, Eq)]
pub enum TransitionOutcome {
    /// The funded contract's timelock, or why there is no funded contract.
    OutgoingContractFunded(Result<u32, GatewayPayError>),
    /// The preimage that the gateway paid for, or why it did not pay.
    OutgoingContractExecuted(Result<String, GatewayPayError>),
    /// The contract can be refunded and the claim for it has been submitted, as
    /// transaction `txid` with the outputs `out_points`.
    RefundClaimed { txid: TransactionId, out_points: Vec<OutPoint> },
    /// Whether the federation accepted the refund, or why not.
    RefundDecided(Result<(), String>),
}

/// How a payment was made.
#[derive(Debug, Clone, Copy, PartialEq, Eq)]
pub enum PayType {
    Lightning(OperationId),
}

/// The record of a payment that succeeded.
#[derive(Debug, Clone, Copy, PartialEq, Eq)]
pub struct PaymentResult {
    pub payment_hash: sha256::Hash,
    pub payment_type: PayType,
    pub contract_id: ContractId,
    pub fee: Amount,
}

/// The claim that takes the money of a contract back: a transaction input that refunds
/// `account`, signed with `keys`.
#[derive(PartialEq, Eq)]
pub struct RefundClaim {
    pub account: OutgoingContractAccount,
    pub keys: Vec<KeyPair>,
    /// The state machines that are to watch the input.
    pub state_machines: Vec<LightningPayStateMachine>,
}

/// A state machine after a transition, and the payment to be recorded with it.
#[derive(PartialEq, Eq)]
pub struct Completed {
    pub machine: LightningPayStateMachine,
    pub payment_result: Option<PaymentResult>,
}

/// What a `StateTransition` stands for.
pub enum StateTransitionView {
    OutgoingContractFunded {
        txid: TransactionId,
        contract_id: ContractId,
        common: LightningPayCommonView,
        gateway: LightningGatewayView,
    },
    OutgoingContractExecuted {
        gateway: LightningGatewayView,
        payload: PayInvoicePayloadView,
        contract_id: ContractId,
        timelock: u32,
        payment_hash: sha256::Hash,
        common: LightningPayCommonView,
    },
    ContractCancelled { contract_id: ContractId, common: LightningPayCommonView },
    ContractTimedOut { timelock: u32, common: LightningPayCommonView },
    RefundDecided {
        common: LightningPayCommonView,
        refund_txid: TransactionId,
        refund_out_points: Seq<OutPoint>,
    },
}

/// What a `TransitionOutcome` stands for.
pub enum TransitionOutcomeView {
    OutgoingContractFunded(Result<u32, GatewayPayErrorView>),
    OutgoingContractExecuted(Result<Seq<char>, GatewayPayErrorView>),
    RefundClaimed { txid: TransactionId, out_points: Seq<OutPoint> },
    RefundDecided(Result<(), Seq<char>>),
}

/// What a `RefundClaim` stands for.
pub struct RefundClaimView {
    pub account: OutgoingContractAccountView,
    pub keys: Seq<KeyPair>,
    pub state_machines: Seq<LightningPayStateMachine>,
}

impl View for StateTransition {
    type V = StateTransitionView;

    open spec fn view(&self) -> StateTransitionView {
        match *self {
            StateTransition::OutgoingContractFunded { txid, contract_id, common, gateway } =>
                StateTransitionView::OutgoingContractFunded {
                    txid,
                    contract_id,
                    common: common@,
                    gateway: gateway@,
                },
            StateTransition::OutgoingContractExecuted {
                gateway,
                payload,
                contract_id,
                timelock,
                payment_hash,
                common,
            } => StateTransitionView::OutgoingContractExecuted {
                gateway: gateway@,
                payload: payload@,
                contract_id,
                timelock,
                payment_hash,
                common: common@,
            },
            StateTransition::ContractCancelled { contract_id, common } =>
                StateTransitionView::ContractCancelled { contract_id, common: common@ },
            StateTransition::ContractTimedOut { timelock, common } =>
                StateTransitionView::ContractTimedOut { timelock, common: common@ },
            StateTransition::RefundDecided { common, refund_txid, refund_out_points } =>
                StateTransitionView::RefundDecided {
                    common: common@,
                    refund_txid,
                    refund_out_points: refund_out_points@,
                },
        }
    }
}

impl StateTransition {
    /// What a list of transitions stands for.
    pub open spec fn views(transitions: Seq<StateTransition>) -> Seq<StateTransitionView> {
        transitions.map_values(|t: StateTransition| t@)
    }
}

impl View for TransitionOutcome {
    type V = TransitionOutcomeView;

    open spec fn view(&self) -> TransitionOutcomeView {
        match *self {
            TransitionOutcome::OutgoingContractFunded(Ok(timelock)) =>
                TransitionOutcomeView::OutgoingContractFunded(Ok(timelock)),
            TransitionOutcome::OutgoingContractFunded(Err(error)) =>
                TransitionOutcomeView::OutgoingContractFunded(Err(error@)),
            TransitionOutcome::OutgoingContractExecuted(Ok(preimage)) =>
                TransitionOutcomeView::OutgoingContractExecuted(Ok(preimage@)),
            TransitionOutcome::OutgoingContractExecuted(Err(error)) =>
                TransitionOutcomeView::OutgoingContractExecuted(Err(error@)),
            TransitionOutcome::RefundClaimed { txid, out_points } =>
                TransitionOutcomeView::RefundClaimed { txid, out_points: out_points@ },
            TransitionOutcome::RefundDecided(Ok(())) => TransitionOutcomeView::RefundDecided(
                Ok(()),
            ),
            TransitionOutcome::RefundDecided(Err(reason)) => TransitionOutcomeView::RefundDecided(
                Err(reason@),
            ),
        }
    }
}

impl Clone for StateTransition {
    fn clone(&self) -> (r: Self)
        ensures
            r@ == self@,
    {
        match self {
            StateTransition::OutgoingContractFunded { txid, contract_id, common, gateway } =>
                StateTransition::OutgoingContractFunded {
                    txid: *txid,
                    contract_id: *contract_id,
                    common: common.clone(),
                    gateway: gateway.clone(),
                },
            StateTransition::OutgoingContractExecuted {
                gateway,
                payload,
                contract_id,
                timelock,
                payment_hash,
                common,
            } => StateTransition::OutgoingContractExecuted {
                gateway: gateway.clone(),
                payload: payload.clone(),
                contract_id: *contract_id,
                timelock: *timelock,
                payment_hash: *payment_hash,
                common: common.clone(),
            },
            StateTransition::ContractCancelled { contract_id, common } =>
                StateTransition::ContractCancelled {
                    contract_id: *contract_id,
                    common: common.clone(),
                },
            StateTransition::ContractTimedOut { timelock, common } =>
                StateTransition::ContractTimedOut { timelock: *timelock, common: common.clone() },
            StateTransition::RefundDecided { common, refund_txid, refund_out_points } => {
                let out_points = refund_out_points.clone();
                assert(out_points@ =~= refund_out_points@);
                StateTransition::RefundDecided {
                    common: common.clone(),
                    refund_txid: *refund_txid,
                    refund_out_points: out_points,
                }
            },
        }
    }
}

impl Clone for TransitionOutcome {
    fn clone(&self) -> (r: Self)
        ensures
            r@ == self@,
    {
        match self {
            TransitionOutcome::OutgoingContractFunded(Ok(timelock)) =>
                TransitionOutcome::OutgoingContractFunded(Ok(*timelock)),
            TransitionOutcome::OutgoingContractFunded(Err(error)) =>
                TransitionOutcome::OutgoingContractFunded(Err(error.clone())),
            TransitionOutcome::OutgoingContractExecuted(Ok(preimage)) =>
                TransitionOutcome::OutgoingContractExecuted(Ok(preimage.clone())),
            TransitionOutcome::OutgoingContractExecuted(Err(error)) =>
                TransitionOutcome::OutgoingContractExecuted(Err(error.clone())),
            TransitionOutcome::RefundClaimed { txid, out_points } => {
                let claimed = out_points.clone();
                assert(claimed@ =~= out_points@);
                TransitionOutcome::RefundClaimed { txid: *txid, out_points: claimed }
            },
            TransitionOutcome::RefundDecided(Ok(())) => TransitionOutcome::RefundDecided(Ok(())),
            TransitionOutcome::RefundDecided(Err(reason)) => TransitionOutcome::RefundDecided(
                Err(reason.clone()),
            ),
        }
    }
}

impl View for RefundClaim {
    type V = RefundClaimView;

    open spec fn view(&self) -> RefundClaimView {
        RefundClaimView {
            account: self.account@,
            keys: self.keys@,
            state_machines: self.state_machines@,
        }
    }
}

impl LightningPayCommonView {
    /// The claim that takes this payment's money back: the contract's own account,
    /// signed with its recovery key alone, and watched by nothing new.
    pub open spec fn refund_claim(self) -> RefundClaimView {
        RefundClaimView {
            account: self.contract.contract_account,
            keys: seq![self.contract.recovery_key],
            state_machines: seq![],
        }
    }
}

impl LightningPayStateMachineView {
    /// The ways out of the state that the machine is in.
    pub open spec fn transitions(self) -> Seq<StateTransitionView> {
        let common = self.common;
        match self.state {
            LightningPayStatesView::CreatedOutgoingLnContract {
                funding_txid,
                contract_id,
                gateway,
            } => seq![
                StateTransitionView::OutgoingContractFunded {
                    txid: funding_txid,
                    contract_id,
                    common,
                    gateway,
                },
            ],
            LightningPayStatesView::Funded { payload, gateway, timelock, payment_hash } => seq![
                StateTransitionView::OutgoingContractExecuted {
                    gateway,
                    payload,
                    contract_id: payload.contract_id,
                    timelock,
                    payment_hash,
                    common,
                },
            ],
            LightningPayStatesView::Refundable { contract_id, block_timelock, .. } => seq![
                StateTransitionView::ContractCancelled { contract_id, common },
                StateTransitionView::ContractTimedOut { timelock: block_timelock, common },
            ],
            LightningPayStatesView::Refund { txid, out_points } => seq![
                StateTransitionView::RefundDecided {
                    common,
                    refund_txid: txid,
                    refund_out_points: out_points,
                },
            ],
            _ => seq![],
        }
    }

    /// The same machine in another state.
    pub open spec fn entering(self, state: LightningPayStatesView) -> Self {
        LightningPayStateMachineView { common: self.common, state }
    }
}

impl StateTransitionView {
    /// Whether `outcome` is of the kind that this transition waits for.
    pub open spec fn accepts(self, outcome: TransitionOutcomeView) -> bool {
        match self {
            StateTransitionView::OutgoingContractFunded { .. } =>
                outcome is OutgoingContractFunded,
            StateTransitionView::OutgoingContractExecuted { .. } =>
                outcome is OutgoingContractExecuted,
            StateTransitionView::ContractCancelled { .. } => outcome is RefundClaimed,
            StateTransitionView::ContractTimedOut { .. } => outcome is RefundClaimed,
            StateTransitionView::RefundDecided { .. } => outcome is RefundDecided,
        }
    }

    /// The claim to be submitted before the transition can be completed.
    pub open spec fn refund_claim(self) -> Option<RefundClaimView> {
        match self {
            StateTransitionView::ContractCancelled { common, .. } => Some(common.refund_claim()),
            StateTransitionView::ContractTimedOut { common, .. } => Some(common.refund_claim()),
            _ => None,
        }
    }

    /// The state that an outcome of the right kind leads to.
    pub open spec fn next_state(self, outcome: TransitionOutcomeView) -> LightningPayStatesView
        recommends
            self.accepts(outcome),
    {
        match (self, outcome) {
            (
                StateTransitionView::OutgoingContractFunded { contract_id, common, gateway, .. },
                TransitionOutcomeView::OutgoingContractFunded(Ok(timelock)),
            ) => LightningPayStatesView::Funded {
                payload: PayInvoicePayloadView { federation_id: common.federation_id, contract_id },
                gateway,
                timelock,
                payment_hash: common.payment_hash(),
            },
            (
                StateTransitionView::OutgoingContractFunded { .. },
                TransitionOutcomeView::OutgoingContractFunded(Err(_)),
            ) => LightningPayStatesView::Canceled,
            (
                StateTransitionView::OutgoingContractExecuted { .. },
                TransitionOutcomeView::OutgoingContractExecuted(Ok(preimage)),
            ) => LightningPayStatesView::Success { preimage },
            (
                StateTransitionView::OutgoingContractExecuted { contract_id, timelock, .. },
                TransitionOutcomeView::OutgoingContractExecuted(Err(error)),
            ) => LightningPayStatesView::Refundable {
                contract_id,
                block_timelock: timelock,
                error,
            },
            (
                StateTransitionView::ContractCancelled { .. },
                TransitionOutcomeView::RefundClaimed { txid, out_points },
            ) => LightningPayStatesView::Refund { txid, out_points },
            (
                StateTransitionView::ContractTimedOut { .. },
                TransitionOutcomeView::RefundClaimed { txid, out_points },
            ) => LightningPayStatesView::Refund { txid, out_points },
            (
                StateTransitionView::RefundDecided { refund_out_points, .. },
                TransitionOutcomeView::RefundDecided(Ok(())),
            ) => LightningPayStatesView::Refunded { out_points: refund_out_points },
            (
                StateTransitionView::RefundDecided { .. },
                TransitionOutcomeView::RefundDecided(Err(_)),
            ) => LightningPayStatesView::Failure { reason: "Refund Transaction was rejected."@ },
            _ => arbitrary(),
        }
    }

    /// The payment to be recorded on `outcome`, for a machine that has been `old_state`
    /// so far.
    pub open spec fn payment_result(
        self,
        outcome: TransitionOutcomeView,
        old_state: LightningPayStateMachineView,
    ) -> Option<PaymentResult> {
        match (self, outcome) {
            (
                StateTransitionView::OutgoingContractExecuted {
                    contract_id,
                    payment_hash,
                    common,
                    ..
                },
                TransitionOutcomeView::OutgoingContractExecuted(Ok(_)),
            ) => Some(
                PaymentResult {
                    payment_hash,
                    payment_type: PayType::Lightning(old_state.common.operation_id),
                    contract_id,
                    fee: common.gateway_fee,
                },
            ),
            _ => None,
        }
    }
}

} // verus!
