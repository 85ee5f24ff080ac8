//! Which wait belongs to which transition.

use vstd::prelude::*;

use crate::created::{FundingEvent, FundingStep};
use crate::error::GatewayPayError;
use crate::funded::{PayInvoiceEvent, PayInvoiceStep, PayInvoiceStepView};
use crate::refund::AwaitTxAccepted;
use crate::refundable::{PollEvent, PollStep};
use crate::states::{
    LightningPayCreatedOutgoingLnContract, LightningPayFunded, LightningPayRefund,
    LightningPayRefundable,
};
use crate::transition::{StateTransition, StateTransitionView};

verus! {

impl StateTransitionView {
    /// What `event` calls for in the wait for the contract to be funded, where that is
    /// what the transition waits for.
    pub open spec fn funding_step(self, event: FundingEvent) -> Option<FundingStep> {
        match self {
            StateTransitionView::OutgoingContractFunded { txid, contract_id, .. } => Some(
                FundingStep::after(event, txid, contract_id),
            ),
            _ => None,
        }
    }

    /// What `event` calls for in the wait for the gateway to pay, where that is what the
    /// transition waits for.
    pub open spec fn pay_invoice_step(self, event: PayInvoiceEvent) -> Option<PayInvoiceStepView> {
        match self {
            StateTransitionView::OutgoingContractExecuted { gateway, payload, .. } => Some(
                PayInvoiceStepView::after(event, gateway, payload),
            ),
            _ => None,
        }
    }

    /// What the federation is asked for, where the transition waits for its report.
    pub open spec fn poll_request(self) -> Option<PollStep> {
        match self {
            StateTransitionView::ContractCancelled { contract_id, .. } => Some(
                PollStep::WaitOutgoingContractCancelled { contract_id },
            ),
            StateTransitionView::ContractTimedOut { timelock, .. } => Some(
                PollStep::WaitBlockHeight { block_height: timelock as u64 },
            ),
            _ => None,
        }
    }

    /// What `event` calls for in the wait for the federation's report, where that is what
    /// the transition waits for.
    pub open spec fn poll_step(self, event: PollEvent) -> Option<PollStep> {
        match self.poll_request() {
            Some(request) => Some(PollStep::after(event, request)),
            None => None,
        }
    }

    /// The transaction that the federation is to decide on, where the transition waits for
    /// the refund.
    pub open spec fn refund_wait(self) -> Option<AwaitTxAccepted> {
        match self {
            StateTransitionView::RefundDecided { common, refund_txid, .. } => Some(
                AwaitTxAccepted { operation_id: common.operation_id, txid: refund_txid },
            ),
            _ => None,
        }
    }
}

impl StateTransition {
    /// What `event` calls for in the wait for the contract to be funded; `None` where the
    /// transition waits for something else.
    pub fn funding_step(&self, event: FundingEvent) -> (r: Option<FundingStep>)
        ensures
            r == self@.funding_step(event),
            match *self {
                StateTransition::OutgoingContractFunded { txid, contract_id, .. } => match event {
                    FundingEvent::Started => r matches Some(
                        FundingStep::AwaitOutputOutcome { out_point, timeout_millis },
                    ) && out_point.txid == txid && out_point.out_idx == 0 && timeout_millis
                        == 2147483647,
                    FundingEvent::OutputAccepted => r matches Some(
                        FundingStep::GetOutgoingContract { contract_id: fetched },
                    ) && fetched == contract_id,
                    FundingEvent::ContractFetched(account) => r matches Some(
                        FundingStep::Finished(Ok(timelock)),
                    ) && timelock == account.contract.timelock,
                    FundingEvent::OutputFailed | FundingEvent::ContractMissing => r matches Some(
                        FundingStep::Finished(Err(GatewayPayError::OutgoingContractError)),
                    ),
                },
                _ => r is None,
            },
    {
        match self {
            StateTransition::OutgoingContractFunded { txid, contract_id, .. } => Some(
                LightningPayCreatedOutgoingLnContract::await_outgoing_contract_funded(
                    event,
                    *txid,
                    *contract_id,
                ),
            ),
            _ => None,
        }
    }

    /// What `event` calls for in the wait for the gateway to pay; `None` where the
    /// transition waits for something else.
    pub fn pay_invoice_step(&self, event: PayInvoiceEvent) -> (r: Option<PayInvoiceStep>)
        requires
            event matches PayInvoiceEvent::Replied(reply) ==> reply.is_readable(),
        ensures
            match self@.pay_invoice_step(event) {
                Some(step) => r matches Some(s) && s@ == step,
                None => r is None,
            },
            match *self {
                StateTransition::OutgoingContractExecuted { gateway, payload, .. } => {
                    &&& r matches Some(step)
                    &&& call_ensures(
                        LightningPayFunded::gateway_pay_invoice,
                        (event, &gateway, &payload),
                        step,
                    )
                },
                _ => r is None,
            },
    {
        match self {
            StateTransition::OutgoingContractExecuted { gateway, payload, .. } => Some(
                LightningPayFunded::gateway_pay_invoice(event, gateway, payload),
            ),
            _ => None,
        }
    }

    /// What `event` calls for in the wait for the contract to be cancelled or to time out;
    /// `None` where the transition waits for something else.
    pub fn poll_step(&self, event: PollEvent) -> (r: Option<PollStep>)
        ensures
            r == self@.poll_step(event),
            match *self {
                StateTransition::ContractCancelled { contract_id, .. } => match event {
                    PollEvent::Started | PollEvent::Slept => r matches Some(
                        PollStep::WaitOutgoingContractCancelled { contract_id: awaited },
                    ) && awaited == contract_id,
                    PollEvent::Failed => r matches Some(PollStep::Sleep { seconds }) && seconds
                        == 1,
                    PollEvent::Succeeded => r matches Some(PollStep::Finished),
                },
                StateTransition::ContractTimedOut { timelock, .. } => match event {
                    PollEvent::Started | PollEvent::Slept => r matches Some(
                        PollStep::WaitBlockHeight { block_height },
                    ) && block_height == timelock,
                    PollEvent::Failed => r matches Some(PollStep::Sleep { seconds }) && seconds
                        == 1,
                    PollEvent::Succeeded => r matches Some(PollStep::Finished),
                },
                _ => r is None,
            },
    {
        match self {
            StateTransition::ContractCancelled { contract_id, .. } => Some(
                LightningPayRefundable::await_contract_cancellable(event, *contract_id),
            ),
            StateTransition::ContractTimedOut { timelock, .. } => Some(
                LightningPayRefundable::await_contract_timeout(event, *timelock),
            ),
            _ => None,
        }
    }

    /// The transaction that the federation is to decide on; `None` where the transition
    /// waits for something else.
    pub fn refund_wait(&self) -> (r: Option<AwaitTxAccepted>)
        ensures
            r == self@.refund_wait(),
            match *self {
                StateTransition::RefundDecided { common, refund_txid, .. } => r matches Some(wait)
                    && wait.operation_id == common.operation_id && wait.txid == refund_txid,
                _ => r is None,
            },
    {
        match self {
            StateTransition::RefundDecided { common, refund_txid, .. } => Some(
                LightningPayRefund::await_refund_success(common, *refund_txid),
            ),
            _ => None,
        }
    }
}

} // verus!
