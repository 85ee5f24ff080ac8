//! From the gateway's failure to the claim that takes the money back.

use vstd::prelude::*;

use crate::states::{
    LightningPayCommon, LightningPayRefund, LightningPayRefundable, LightningPayStateMachine,
    LightningPayStateMachineView, LightningPayStates,
};
use crate::transition::{RefundClaim, StateTransition};
use crate::types::{ContractId, OutPoint, TransactionId};

verus! {

/// Pause between two attempts to reach the federation, in seconds.
pub const RETRY_SECONDS: u64 = 1;

/// What has happened while waiting for the federation to report something.
#[derive(Debug, Clone, Copy, PartialEq, Eq)]
pub enum PollEvent {
    /// The wait begins.
    Started,
    /// The federation has reported it.
    Succeeded,
    /// The federation could not be asked.
    Failed,
    /// The pause is over.
    Slept,
}

/// What is to be done next to hear of it.
#[derive(Debug, Clone, Copy, PartialEq, Eq)]
pub enum PollStep {
    /// Ask the federation to report when the gateway has cancelled the contract.
    WaitOutgoingContractCancelled { contract_id: ContractId },
    /// Ask the federation to report when it has reached the block height.
    WaitBlockHeight { block_height: u64 },
    /// Pause.
    Sleep { seconds: u64 },
    /// Nothing: it has been reported.
    Finished,
}

impl PollStep {
    /// What `event` calls for where `request` is what the federation is asked: it is
    /// asked again, after a pause, until it has reported.
    pub open spec fn after(event: PollEvent, request: PollStep) -> PollStep {
        match event {
            PollEvent::Started => request,
            PollEvent::Slept => request,
            PollEvent::Failed => PollStep::Sleep { seconds: RETRY_SECONDS },
            PollEvent::Succeeded => PollStep::Finished,
        }
    }

    /// Whether the step asks the federation for something.
    pub open spec fn is_request(self) -> bool {
        self is WaitOutgoingContractCancelled || self is WaitBlockHeight
    }
}

impl LightningPayRefundable {
    /// The two ways out of this state: the gateway cancels the contract, or the contract
    /// times out.
    pub fn transitions(&self, common: LightningPayCommon) -> (r: Vec<StateTransition>)
        ensures
            StateTransition::views(r@) == (LightningPayStateMachineView {
                common: common@,
                state: self@,
            }).transitions(),
            r@.len() == 2,
            r@[0] matches StateTransition::ContractCancelled { contract_id, common: kept }
                && contract_id == self.contract_id && kept == common,
            r@[1] matches StateTransition::ContractTimedOut { timelock, common: kept }
                && timelock == self.block_timelock && kept@ == common@,
    {
        let ghost machine = LightningPayStateMachineView { common: common@, state: self@ };
        let timeout_common = common.clone();
        let r = vec![
            StateTransition::ContractCancelled { contract_id: self.contract_id, common },
            StateTransition::ContractTimedOut {
                timelock: self.block_timelock,
                common: timeout_common,
            },
        ];
        assert(StateTransition::views(r@) =~= machine.transitions());
        assert(r@.len() == 2);
        r
    }

    /// The claim for the money of an expired or cancelled outgoing contract.
    ///
    /// The claim can be necessary when the Lightning gateway cannot route the payment,
    /// is malicious or offline. Its input is watched by the payment's own state machine,
    /// so no new state machine is created for it.
    pub fn refund_claim(common: LightningPayCommon) -> (r: RefundClaim)
        ensures
            r@ == common@.refund_claim(),
            r.account == common.contract.contract_account,
            r.keys@ == seq![common.contract.recovery_key],
            r.state_machines@.len() == 0,
    {
        let contract_data = common.contract;
        let r = RefundClaim {
            account: contract_data.contract_account,
            keys: vec![contract_data.recovery_key],
            state_machines: vec![],
        };
        assert(r.keys@ =~= seq![contract_data.recovery_key]);
        assert(r.state_machines@ =~= seq![]);
        r
    }

    /// Enters `Refund`, once the refund claim has been submitted as transaction `txid`
    /// with the outputs `out_points`.
    pub fn try_refund_outgoing_contract(
        old_state: LightningPayStateMachine,
        txid: TransactionId,
        out_points: Vec<OutPoint>,
    ) -> (r: LightningPayStateMachine)
        ensures
            r.common == old_state.common,
            r.state == LightningPayStates::Refund(LightningPayRefund { txid, out_points }),
    {
        LightningPayStateMachine {
            common: old_state.common,
            state: LightningPayStates::Refund(LightningPayRefund { txid, out_points }),
        }
    }

    /// Waits until the gateway has cancelled the contract.
    pub fn await_contract_cancellable(event: PollEvent, contract_id: ContractId) -> (r: PollStep)
        ensures
            r == PollStep::after(event, PollStep::WaitOutgoingContractCancelled { contract_id }),
            match event {
                PollEvent::Started | PollEvent::Slept => r
                    matches PollStep::WaitOutgoingContractCancelled { contract_id: awaited }
                    && awaited == contract_id,
                PollEvent::Failed => r matches PollStep::Sleep { seconds } && seconds == 1,
                PollEvent::Succeeded => r is Finished,
            },
    {
        match event {
            PollEvent::Started | PollEvent::Slept => PollStep::WaitOutgoingContractCancelled {
                contract_id,
            },
            PollEvent::Succeeded => PollStep::Finished,
            // Whoever fails to reach the federation has to keep trying.
            PollEvent::Failed => PollStep::Sleep { seconds: RETRY_SECONDS },
        }
    }

    /// Waits until the federation has reached the block height `timelock`.
    pub fn await_contract_timeout(event: PollEvent, timelock: u32) -> (r: PollStep)
        ensures
            r == PollStep::after(
                event,
                PollStep::WaitBlockHeight { block_height: timelock as u64 },
            ),
            match event {
                PollEvent::Started | PollEvent::Slept => r matches PollStep::WaitBlockHeight {
                    block_height,
                } && block_height == timelock,
                PollEvent::Failed => r matches PollStep::Sleep { seconds } && seconds == 1,
                PollEvent::Succeeded => r is Finished,
            },
    {
        match event {
            PollEvent::Started | PollEvent::Slept => PollStep::WaitBlockHeight {
                block_height: timelock as u64,
            },
            PollEvent::Succeeded => PollStep::Finished,
            PollEvent::Failed => PollStep::Sleep { seconds: RETRY_SECONDS },
        }
    }
}

} // verus!
