//! From the submitted funding transaction to the funded contract.

use vstd::prelude::*;

use crate::error::GatewayPayError;
use crate::states::{
    LightningPayCommon, LightningPayCreatedOutgoingLnContract, LightningPayFunded,
    LightningPayStateMachine, LightningPayStateMachineView, LightningPayStates,
    LightningPayStatesView,
};
use crate::transition::StateTransition;
use crate::types::{
    ContractId, LightningGateway, OutPoint, OutgoingContractAccount, PayInvoicePayload,
    PayInvoicePayloadView, TransactionId,
};

verus! {

/// How long the federation is waited for, in milliseconds: the largest 32-bit signed
/// number.
pub const FUNDING_TIMEOUT_MILLIS: u64 = 0x7fff_ffff;

/// What has happened while waiting for the contract to be funded.
#[derive(Debug, PartialEq, Eq)]
pub enum FundingEvent {
    /// The wait begins.
    Started,
    /// The federation has accepted the contract's output.
    OutputAccepted,
    /// The output was not accepted in time, or asking for it failed.
    OutputFailed,
    /// The federation has handed the contract out.
    ContractFetched(OutgoingContractAccount),
    /// The federation could not be asked, or has no such contract.
    ContractMissing,
}

/// What is to be done next to see the contract funded.
#[derive(Debug, PartialEq, Eq)]
pub enum FundingStep {
    /// Wait until the federation decides on an output.
    AwaitOutputOutcome { out_point: OutPoint, timeout_millis: u64 },
    /// Ask the federation for the contract.
    GetOutgoingContract { contract_id: ContractId },
    /// Nothing: the contract's timelock is known, or there is no such contract.
    Finished(Result<u32, GatewayPayError>),
}

impl FundingStep {
    /// What `event` calls for, of a contract `contract_id` that is the first output of
    /// the transaction `txid`.
    pub open spec fn after(
        event: FundingEvent,
        txid: TransactionId,
        contract_id: ContractId,
    ) -> FundingStep {
        match event {
            FundingEvent::Started => FundingStep::AwaitOutputOutcome {
                out_point: OutPoint { txid, out_idx: 0 },
                timeout_millis: FUNDING_TIMEOUT_MILLIS,
            },
            FundingEvent::OutputAccepted => FundingStep::GetOutgoingContract { contract_id },
            FundingEvent::ContractFetched(account) => FundingStep::Finished(
                Ok(account.contract.timelock),
            ),
            FundingEvent::OutputFailed => FundingStep::Finished(
                Err(GatewayPayError::OutgoingContractError),
            ),
            FundingEvent::ContractMissing => FundingStep::Finished(
                Err(GatewayPayError::OutgoingContractError),
            ),
        }
    }
}

impl LightningPayCreatedOutgoingLnContract {
    /// The way out of this state: the federation decides on the funding transaction.
    pub fn transitions(&self, common: &LightningPayCommon) -> (r: Vec<StateTransition>)
        ensures
            StateTransition::views(r@) == (LightningPayStateMachineView {
                common: common@,
                state: self@,
            }).transitions(),
            r@.len() == 1,
            r@[0] matches StateTransition::OutgoingContractFunded {
                txid,
                contract_id,
                common: kept,
                gateway,
            } && {
                &&& txid == self.funding_txid
                &&& contract_id == self.contract_id
                &&& kept@ == common@
                &&& gateway.api == self.gateway.api
                &&& gateway.announcement@ == self.gateway.announcement@
            },
    {
        let r = vec![
            StateTransition::OutgoingContractFunded {
                txid: self.funding_txid,
                contract_id: self.contract_id,
                common: common.clone(),
                gateway: self.gateway.clone(),
            },
        ];
        assert(StateTransition::views(r@) =~= (LightningPayStateMachineView {
            common: common@,
            state: self@,
        }).transitions());
        assert(r@.len() == 1);
        r
    }

    /// Waits until the federation has accepted the funding transaction, then asks it for
    /// the contract and finishes with the contract's timelock.
    pub fn await_outgoing_contract_funded(
        event: FundingEvent,
        txid: TransactionId,
        contract_id: ContractId,
    ) -> (r: FundingStep)
        ensures
            r == FundingStep::after(event, txid, contract_id),
            match event {
                FundingEvent::Started => r matches FundingStep::AwaitOutputOutcome {
                    out_point,
                    timeout_millis,
                } && out_point.txid == txid && out_point.out_idx == 0 && timeout_millis
                    == 2147483647,
                FundingEvent::OutputAccepted => r matches FundingStep::GetOutgoingContract {
                    contract_id: fetched,
                } && fetched == contract_id,
                FundingEvent::ContractFetched(account) => r matches FundingStep::Finished(
                    Ok(timelock),
                ) && timelock == account.contract.timelock,
                FundingEvent::OutputFailed | FundingEvent::ContractMissing => r
                    matches FundingStep::Finished(Err(GatewayPayError::OutgoingContractError)),
            },
    {
        match event {
            FundingEvent::Started => FundingStep::AwaitOutputOutcome {
                out_point: OutPoint { txid, out_idx: 0 },
                timeout_millis: FUNDING_TIMEOUT_MILLIS,
            },
            FundingEvent::OutputFailed => FundingStep::Finished(
                Err(GatewayPayError::OutgoingContractError),
            ),
            FundingEvent::OutputAccepted => FundingStep::GetOutgoingContract { contract_id },
            FundingEvent::ContractMissing => FundingStep::Finished(
                Err(GatewayPayError::OutgoingContractError),
            ),
            FundingEvent::ContractFetched(account) => FundingStep::Finished(
                Ok(account.contract.timelock),
            ),
        }
    }

    /// Enters `Funded` when the funding transaction was accepted and `Canceled` when it
    /// was rejected.
    pub fn transition_outgoing_contract_funded(
        result: Result<u32, GatewayPayError>,
        old_state: LightningPayStateMachine,
        common: LightningPayCommon,
        contract_id: ContractId,
        gateway: LightningGateway,
    ) -> (r: LightningPayStateMachine)
        requires
            old_state.state is CreatedOutgoingLnContract,
        ensures
            r.common == old_state.common,
            match result {
                Ok(timelock) => r.state@ == (LightningPayStatesView::Funded {
                    payload: PayInvoicePayloadView {
                        federation_id: common@.federation_id,
                        contract_id,
                    },
                    gateway: gateway@,
                    timelock,
                    payment_hash: common@.payment_hash(),
                }),
                Err(_) => r.state is Canceled,
            },
            result matches Ok(timelock) ==> {
                &&& r.state matches LightningPayStates::Funded(funded)
                &&& funded.payload.federation_id == common.federation_id
                &&& funded.payload.contract_id == contract_id
                &&& funded.gateway == gateway
                &&& funded.timelock == timelock
                &&& funded.payment_hash
                    == common.contract.contract_account.contract.invoice.payment_hash
            },
    {
        match result {
            Ok(timelock) => {
                let payment_hash =
                    *common.contract.contract_account.contract.invoice.payment_hash();
                let payload = PayInvoicePayload::new(common.federation_id, contract_id);
                LightningPayStateMachine {
                    common: old_state.common,
                    state: LightningPayStates::Funded(
                        LightningPayFunded { payload, gateway, timelock, payment_hash },
                    ),
                }
            },
            Err(_) => LightningPayStateMachine {
                common: old_state.common,
                state: LightningPayStates::Canceled,
            },
        }
    }
}

} // verus!
