//! The states that a payment goes through, with what each of them remembers.

use bitcoin_hashes::sha256;
use vstd::prelude::*;

use crate::error::{GatewayPayError, GatewayPayErrorView};
use crate::types::{
    Amount, ContractId, FederationId, LightningGateway, LightningGatewayView, OperationId, OutPoint,
    OutgoingContractData, OutgoingContractDataView, PayInvoicePayload, PayInvoicePayloadView,
    TransactionId,
};

verus! {

/// State machine that requests the lightning gateway to pay an invoice on behalf of
/// a federation client.
///
/// ```text
/// CreatedOutgoingLnContract -- transaction failed ------> Canceled
/// CreatedOutgoingLnContract -- transaction accepted ----> Funded
/// Funded -- gateway payment succeeded ------------------> Success
/// Funded -- gateway payment failed ---------------------> Refundable
/// Refundable -- gateway issued refund ------------------> Refund
/// Refundable -- contract timed out ---------------------> Refund
/// Refund -- transaction accepted -----------------------> Refunded
/// Refund -- transaction rejected -----------------------> Failure
/// ```
#[derive(Debug, PartialEq, Eq)]
pub enum LightningPayStates {
    CreatedOutgoingLnContract(LightningPayCreatedOutgoingLnContract),
    Canceled,
    Funded(LightningPayFunded),
    Success(String),
    Refundable(LightningPayRefundable),
    Refund(LightningPayRefund),
    Refunded(Vec<OutPoint>),
    Failure(String),
}

/// The transaction that funds the outgoing contract has been submitted.
#[derive(Debug, PartialEq, Eq)]
pub struct LightningPayCreatedOutgoingLnContract {
    pub funding_txid: TransactionId,
    pub contract_id: ContractId,
    pub gateway: LightningGateway,
}

/// The contract is funded and the gateway can be asked to pay.
#[derive(Debug, PartialEq, Eq)]
pub struct LightningPayFunded {
    pub payload: PayInvoicePayload,
    pub gateway: LightningGateway,
    pub timelock: u32,
    pub payment_hash: sha256::Hash,
}

/// The gateway did not pay. The money can be taken back once the gateway cancels the
/// contract or the timelock is reached.
#[derive(Debug, PartialEq, Eq)]
pub struct LightningPayRefundable {
    pub contract_id: ContractId,
    pub block_timelock: u32,
    pub error: GatewayPayError,
}

/// The transaction that takes the money back has been submitted.
#[derive(Debug, PartialEq, Eq)]
pub struct LightningPayRefund {
    pub txid: TransactionId,
    pub out_points: Vec<OutPoint>,
}

/// What stays the same over all states of one payment.
#[derive(PartialEq, Eq)]
pub struct LightningPayCommon {
    pub operation_id: OperationId,
    pub federation_id: FederationId,
    pub contract: OutgoingContractData,
    pub gateway_fee: Amount,
}

/// One payment: what stays the same, and the state it is in.
#[derive(PartialEq, Eq)]
pub struct LightningPayStateMachine {
    pub common: LightningPayCommon,
    pub state: LightningPayStates,
}

/// What a `LightningPayStates` stands for.
pub enum LightningPayStatesView {
    CreatedOutgoingLnContract {
        funding_txid: TransactionId,
        contract_id: ContractId,
        gateway: LightningGatewayView,
    },
    Canceled,
    Funded {
        payload: PayInvoicePayloadView,
        gateway: LightningGatewayView,
        timelock: u32,
        payment_hash: sha256::Hash,
    },
    Success { preimage: Seq<char> },
    Refundable { contract_id: ContractId, block_timelock: u32, error: GatewayPayErrorView },
    Refund { txid: TransactionId, out_points: Seq<OutPoint> },
    Refunded { out_points: Seq<OutPoint> },
    Failure { reason: Seq<char> },
}

/// What a `LightningPayCommon` stands for.
pub struct LightningPayCommonView {
    pub operation_id: OperationId,
    pub federation_id: Seq<u8>,
    pub contract: OutgoingContractDataView,
    pub gateway_fee: Amount,
}

/// What a `LightningPayStateMachine` stands for.
pub struct LightningPayStateMachineView {
    pub common: LightningPayCommonView,
    pub state: LightningPayStatesView,
}

impl View for LightningPayStates {
    type V = LightningPayStatesView;

    open spec fn view(&self) -> LightningPayStatesView {
        match *self {
            LightningPayStates::CreatedOutgoingLnContract(created) => created@,
            LightningPayStates::Canceled => LightningPayStatesView::Canceled,
            LightningPayStates::Funded(funded) => funded@,
            LightningPayStates::Success(preimage) => LightningPayStatesView::Success {
                preimage: preimage@,
            },
            LightningPayStates::Refundable(refundable) => refundable@,
            LightningPayStates::Refund(refund) => refund@,
            LightningPayStates::Refunded(out_points) => LightningPayStatesView::Refunded {
                out_points: out_points@,
            },
            LightningPayStates::Failure(reason) => LightningPayStatesView::Failure {
                reason: reason@,
            },
        }
    }
}

impl View for LightningPayCreatedOutgoingLnContract {
    type V = LightningPayStatesView;

    open spec fn view(&self) -> LightningPayStatesView {
        LightningPayStatesView::CreatedOutgoingLnContract {
            funding_txid: self.funding_txid,
            contract_id: self.contract_id,
            gateway: self.gateway@,
        }
    }
}

impl View for LightningPayFunded {
    type V = LightningPayStatesView;

    open spec fn view(&self) -> LightningPayStatesView {
        LightningPayStatesView::Funded {
            payload: self.payload@,
            gateway: self.gateway@,
            timelock: self.timelock,
            payment_hash: self.payment_hash,
        }
    }
}

impl View for LightningPayRefundable {
    type V = LightningPayStatesView;

    open spec fn view(&self) -> LightningPayStatesView {
        LightningPayStatesView::Refundable {
            contract_id: self.contract_id,
            block_timelock: self.block_timelock,
            error: self.error@,
        }
    }
}

impl View for LightningPayRefund {
    type V = LightningPayStatesView;

    open spec fn view(&self) -> LightningPayStatesView {
        LightningPayStatesView::Refund { txid: self.txid, out_points: self.out_points@ }
    }
}

impl View for LightningPayCommon {
    type V = LightningPayCommonView;

    open spec fn view(&self) -> LightningPayCommonView {
        LightningPayCommonView {
            operation_id: self.operation_id,
            federation_id: self.federation_id@,
            contract: self.contract@,
            gateway_fee: self.gateway_fee,
        }
    }
}

impl View for LightningPayStateMachine {
    type V = LightningPayStateMachineView;

    open spec fn view(&self) -> LightningPayStateMachineView {
        LightningPayStateMachineView { common: self.common@, state: self.state@ }
    }
}

impl Clone for LightningPayCommon {
    fn clone(&self) -> (r: Self)
        ensures
            r@ == self@,
    {
        LightningPayCommon {
            operation_id: self.operation_id,
            federation_id: self.federation_id.clone(),
            contract: self.contract.clone(),
            gateway_fee: self.gateway_fee,
        }
    }
}

impl Clone for LightningPayCreatedOutgoingLnContract {
    fn clone(&self) -> (r: Self)
        ensures
            r@ == self@,
    {
        LightningPayCreatedOutgoingLnContract {
            funding_txid: self.funding_txid,
            contract_id: self.contract_id,
            gateway: self.gateway.clone(),
        }
    }
}

impl Clone for LightningPayFunded {
    fn clone(&self) -> (r: Self)
        ensures
            r@ == self@,
    {
        LightningPayFunded {
            payload: self.payload.clone(),
            gateway: self.gateway.clone(),
            timelock: self.timelock,
            payment_hash: self.payment_hash,
        }
    }
}

impl Clone for LightningPayRefundable {
    fn clone(&self) -> (r: Self)
        ensures
            r@ == self@,
    {
        LightningPayRefundable {
            contract_id: self.contract_id,
            block_timelock: self.block_timelock,
            error: self.error.clone(),
        }
    }
}

impl Clone for LightningPayRefund {
    fn clone(&self) -> (r: Self)
        ensures
            r@ == self@,
    {
        let out_points = self.out_points.clone();
        assert(out_points@ =~= self.out_points@);
        LightningPayRefund { txid: self.txid, out_points }
    }
}

impl Clone for LightningPayStates {
    fn clone(&self) -> (r: Self)
        ensures
            r@ == self@,
    {
        match self {
            LightningPayStates::CreatedOutgoingLnContract(created) =>
                LightningPayStates::CreatedOutgoingLnContract(created.clone()),
            LightningPayStates::Canceled => LightningPayStates::Canceled,
            LightningPayStates::Funded(funded) => LightningPayStates::Funded(funded.clone()),
            LightningPayStates::Success(preimage) => LightningPayStates::Success(preimage.clone()),
            LightningPayStates::Refundable(refundable) => LightningPayStates::Refundable(
                refundable.clone(),
            ),
            LightningPayStates::Refund(refund) => LightningPayStates::Refund(refund.clone()),
            LightningPayStates::Refunded(refunded) => {
                let out_points = refunded.clone();
                assert(out_points@ =~= refunded@);
                LightningPayStates::Refunded(out_points)
            },
            LightningPayStates::Failure(reason) => LightningPayStates::Failure(reason.clone()),
        }
    }
}

impl Clone for LightningPayStateMachine {
    fn clone(&self) -> (r: Self)
        ensures
            r@ == self@,
    {
        LightningPayStateMachine { common: self.common.clone(), state: self.state.clone() }
    }
}

impl LightningPayCommonView {
    /// The payment hash of the invoice that the contract pays for.
    pub open spec fn payment_hash(self) -> sha256::Hash {
        self.contract.contract_account.contract.invoice.payment_hash
    }
}

} // verus!
