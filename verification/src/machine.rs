//! The state machine as a whole.

use vstd::prelude::*;

use crate::states::{
    LightningPayCreatedOutgoingLnContract, LightningPayFunded, LightningPayRefund,
    LightningPayRefundable, LightningPayStateMachine, LightningPayStates,
};
use crate::transition::{Completed, PayType, RefundClaim, StateTransition, TransitionOutcome};
use crate::types::OperationId;

verus! {

impl LightningPayStateMachine {
    /// The ways out of the state that the machine is in, none where the payment has come
    /// to its end.
    pub fn transitions(&self) -> (r: Vec<StateTransition>)
        ensures
            r@.len() == self@.transitions().len(),
            StateTransition::views(r@) == self@.transitions(),
            match self.state {
                LightningPayStates::CreatedOutgoingLnContract(created) => {
                    &&& r@.len() == 1
                    &&& r@[0] matches StateTransition::OutgoingContractFunded {
                        txid,
                        contract_id,
                        common,
                        gateway,
                    }
                    &&& txid == created.funding_txid
                    &&& contract_id == created.contract_id
                    &&& common@ == self.common@
                    &&& gateway.api == created.gateway.api
                    &&& gateway.announcement@ == created.gateway.announcement@
                },
                LightningPayStates::Funded(funded) => {
                    &&& r@.len() == 1
                    &&& r@[0] matches StateTransition::OutgoingContractExecuted {
                        gateway,
                        payload,
                        contract_id,
                        timelock,
                        payment_hash,
                        common,
                    }
                    &&& gateway.api == funded.gateway.api
                    &&& gateway.announcement@ == funded.gateway.announcement@
                    &&& payload.federation_id.bytes@ == funded.payload.federation_id.bytes@
                    &&& payload.contract_id == funded.payload.contract_id
                    &&& contract_id == funded.payload.contract_id
                    &&& timelock == funded.timelock
                    &&& payment_hash == funded.payment_hash
                    &&& common@ == self.common@
                },
                LightningPayStates::Refundable(refundable) => {
                    &&& r@.len() == 2
                    &&& r@[0] matches StateTransition::ContractCancelled { contract_id, common: c }
                    &&& contract_id == refundable.contract_id
                    &&& c@ == self.common@
                    &&& r@[1] matches StateTransition::ContractTimedOut { timelock, common: t }
                    &&& timelock == refundable.block_timelock
                    &&& t@ == self.common@
                },
                LightningPayStates::Refund(refund) => {
                    &&& r@.len() == 1
                    &&& r@[0] matches StateTransition::RefundDecided {
                        common,
                        refund_txid,
                        refund_out_points,
                    }
                    &&& common@ == self.common@
                    &&& refund_txid == refund.txid
                    &&& refund_out_points@ == refund.out_points@
                },
                _ => r@.len() == 0,
            },
    {
        let r = match &self.state {
            LightningPayStates::CreatedOutgoingLnContract(created) => created.transitions(
                &self.common,
            ),
            LightningPayStates::Funded(funded) => funded.transitions(self.common.clone()),
            LightningPayStates::Refundable(refundable) => refundable.transitions(
                self.common.clone(),
            ),
            LightningPayStates::Refund(refund) => refund.transitions(&self.common),
            LightningPayStates::Canceled
            | LightningPayStates::Success(_)
            | LightningPayStates::Refunded(_)
            | LightningPayStates::Failure(_) => {
                let none = vec![];
                assert(StateTransition::views(none@) =~= self@.transitions());
                none
            },
        };
        assert(r@.len() == StateTransition::views(r@).len());
        r
    }

    /// The operation that the payment belongs to.
    pub fn operation_id(&self) -> (r: OperationId)
        ensures
            r == self.common.operation_id,
    {
        self.common.operation_id
    }
}

impl StateTransition {
    /// The claim to be submitted once what is waited for has happened, before the
    /// transition can be completed.
    pub fn refund_claim(&self) -> (r: Option<RefundClaim>)
        ensures
            match self@.refund_claim() {
                Some(claim) => r matches Some(c) && c@ == claim,
                None => r is None,
            },
            match *self {
                StateTransition::ContractCancelled { common, .. }
                | StateTransition::ContractTimedOut { common, .. } => {
                    &&& r matches Some(claim)
                    &&& claim.account.contract == common.contract.contract_account.contract
                    &&& claim.account.encoded@ == common.contract.contract_account.encoded@
                    &&& claim.keys@ == seq![common.contract.recovery_key]
                    &&& claim.state_machines@.len() == 0
                },
                _ => r is None,
            },
    {
        match self {
            StateTransition::ContractCancelled { common, .. }
            | StateTransition::ContractTimedOut { common, .. } => Some(
                LightningPayRefundable::refund_claim(common.clone()),
            ),
            _ => None,
        }
    }

    /// Whether `outcome` is of the kind that this transition waits for.
    pub fn accepts_outcome(&self, outcome: &TransitionOutcome) -> (r: bool)
        ensures
            r == self@.accepts(outcome@),
            r <==> {
                ||| self is OutgoingContractFunded && outcome is OutgoingContractFunded
                ||| self is OutgoingContractExecuted && outcome is OutgoingContractExecuted
                ||| self is ContractCancelled && outcome is RefundClaimed
                ||| self is ContractTimedOut && outcome is RefundClaimed
                ||| self is RefundDecided && outcome is RefundDecided
            },
    {
        match self {
            StateTransition::OutgoingContractFunded { .. } => matches!(
                outcome,
                TransitionOutcome::OutgoingContractFunded(_)
            ),
            StateTransition::OutgoingContractExecuted { .. } => matches!(
                outcome,
                TransitionOutcome::OutgoingContractExecuted(_)
            ),
            StateTransition::ContractCancelled { .. }
            | StateTransition::ContractTimedOut { .. } => matches!(
                outcome,
                TransitionOutcome::RefundClaimed { .. }
            ),
            StateTransition::RefundDecided { .. } => matches!(
                outcome,
                TransitionOutcome::RefundDecided(_)
            ),
        }
    }

    /// Enters the next state, from the machine that the transition was made for.
    pub fn complete(self, outcome: TransitionOutcome, old_state: LightningPayStateMachine) -> (r:
        Completed)
        requires
            self@.accepts(outcome@),
            self is OutgoingContractFunded ==> old_state.state is CreatedOutgoingLnContract,
        ensures
            r.machine@ == old_state@.entering(self@.next_state(outcome@)),
            r.payment_result == self@.payment_result(outcome@, old_state@),
            r.machine.common == old_state.common,
            match outcome {
                TransitionOutcome::OutgoingContractFunded(Ok(given)) => {
                    &&& self matches StateTransition::OutgoingContractFunded {
                        contract_id,
                        common,
                        gateway,
                        ..
                    }
                    &&& r.machine.state matches LightningPayStates::Funded(funded)
                    &&& funded.timelock == given
                    &&& funded.payload.federation_id == common.federation_id
                    &&& funded.payload.contract_id == contract_id
                    &&& funded.gateway == gateway
                    &&& funded.payment_hash
                        == common.contract.contract_account.contract.invoice.payment_hash
                    &&& r.payment_result is None
                },
                TransitionOutcome::OutgoingContractFunded(Err(_)) => {
                    &&& r.machine.state is Canceled
                    &&& r.payment_result is None
                },
                TransitionOutcome::OutgoingContractExecuted(Ok(preimage)) => {
                    &&& self matches StateTransition::OutgoingContractExecuted {
                        contract_id,
                        payment_hash,
                        common,
                        ..
                    }
                    &&& r.machine.state == LightningPayStates::Success(preimage)
                    &&& r.payment_result matches Some(recorded)
                    &&& recorded.payment_hash == payment_hash
                    &&& recorded.payment_type == PayType::Lightning(old_state.common.operation_id)
                    &&& recorded.contract_id == contract_id
                    &&& recorded.fee == common.gateway_fee
                },
                TransitionOutcome::OutgoingContractExecuted(Err(why)) => {
                    &&& self matches StateTransition::OutgoingContractExecuted {
                        contract_id,
                        timelock,
                        ..
                    }
                    &&& r.machine.state matches LightningPayStates::Refundable(refundable)
                    &&& refundable.contract_id == contract_id
                    &&& refundable.block_timelock == timelock
                    &&& refundable.error == why
                    &&& r.payment_result is None
                },
                TransitionOutcome::RefundClaimed { txid, out_points } => {
                    &&& r.machine.state matches LightningPayStates::Refund(refund)
                    &&& refund.txid == txid
                    &&& refund.out_points == out_points
                    &&& r.payment_result is None
                },
                TransitionOutcome::RefundDecided(Ok(_)) => {
                    &&& self matches StateTransition::RefundDecided { refund_out_points, .. }
                    &&& r.machine.state == LightningPayStates::Refunded(refund_out_points)
                    &&& r.payment_result is None
                },
                TransitionOutcome::RefundDecided(Err(_)) => {
                    &&& r.machine.state matches LightningPayStates::Failure(reason)
                    &&& reason@ == "Refund Transaction was rejected."@
                    &&& r.payment_result is None
                },
            },
    {
        match (self, outcome) {
            (
                StateTransition::OutgoingContractFunded { contract_id, common, gateway, .. },
                TransitionOutcome::OutgoingContractFunded(result),
            ) => Completed {
                machine: LightningPayCreatedOutgoingLnContract::transition_outgoing_contract_funded(
                    result,
                    old_state,
                    common,
                    contract_id,
                    gateway,
                ),
                payment_result: None,
            },
            (
                StateTransition::OutgoingContractExecuted {
                    contract_id,
                    timelock,
                    payment_hash,
                    common,
                    ..
                },
                TransitionOutcome::OutgoingContractExecuted(result),
            ) => LightningPayFunded::transition_outgoing_contract_execution(
                result,
                old_state,
                contract_id,
                timelock,
                payment_hash,
                common,
            ),
            (
                StateTransition::RefundDecided { refund_out_points, .. },
                TransitionOutcome::RefundDecided(result),
            ) => Completed {
                machine: LightningPayRefund::transition_refund_success(
                    result,
                    old_state,
                    refund_out_points,
                ),
                payment_result: None,
            },
            (_, TransitionOutcome::RefundClaimed { txid, out_points }) => Completed {
                machine: LightningPayRefundable::try_refund_outgoing_contract(
                    old_state,
                    txid,
                    out_points,
                ),
                payment_result: None,
            },
            // Every transition has been given the outcome that it waits for.
            (_, _) => vstd::pervasive::unreached(),
        }
    }
}

} // verus!
