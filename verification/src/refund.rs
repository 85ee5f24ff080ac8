//! From the submitted refund to the federation's decision on it.

use vstd::prelude::*;

use crate::states::{
    LightningPayCommon, LightningPayRefund, LightningPayStateMachine, LightningPayStateMachineView,
    LightningPayStates, LightningPayStatesView,
};
use crate::transition::StateTransition;
use crate::types::{OperationId, OutPoint, TransactionId};

verus! {

/// A wait for the federation's decision on a transaction.
#[derive(Debug, Clone, Copy, PartialEq, Eq)]
pub struct AwaitTxAccepted {
    pub operation_id: OperationId,
    pub txid: TransactionId,
}

impl LightningPayRefund {
    /// The way out of this state: the federation decides on the refund.
    pub fn transitions(&self, common: &LightningPayCommon) -> (r: Vec<StateTransition>)
        ensures
            StateTransition::views(r@) == (LightningPayStateMachineView {
                common: common@,
                state: self@,
            }).transitions(),
            r@.len() == 1,
            r@[0] matches StateTransition::RefundDecided {
                common: kept,
                refund_txid,
                refund_out_points,
            } && kept@ == common@ && refund_txid == self.txid && refund_out_points@
                == self.out_points@,
    {
        let refund_out_points = self.out_points.clone();
        assert(refund_out_points@ =~= self.out_points@);
        let r = vec![
            StateTransition::RefundDecided {
                common: common.clone(),
                refund_txid: self.txid,
                refund_out_points,
            },
        ];
        assert(StateTransition::views(r@) =~= (LightningPayStateMachineView {
            common: common@,
            state: self@,
        }).transitions());
        assert(r@.len() == 1);
        r
    }

    /// Waits for the federation to decide on the refund; its decision is the result.
    pub fn await_refund_success(
        common: &LightningPayCommon,
        refund_txid: TransactionId,
    ) -> (r: AwaitTxAccepted)
        ensures
            r.operation_id == common.operation_id,
            r.txid == refund_txid,
    {
        AwaitTxAccepted { operation_id: common.operation_id, txid: refund_txid }
    }

    /// Enters `Refunded` when the refund was accepted and `Failure` when it was not.
    pub fn transition_refund_success(
        result: Result<(), String>,
        old_state: LightningPayStateMachine,
        refund_out_points: Vec<OutPoint>,
    ) -> (r: LightningPayStateMachine)
        ensures
            r.common == old_state.common,
            match result {
                Ok(_) => r.state == LightningPayStates::Refunded(refund_out_points),
                Err(_) => r.state@ == (LightningPayStatesView::Failure {
                    reason: "Refund Transaction was rejected."@,
                }),
            },
            result is Err ==> (r.state matches LightningPayStates::Failure(reason) && reason@
                == "Refund Transaction was rejected."@),
    {
        match result {
            Ok(_) => LightningPayStateMachine {
                common: old_state.common,
                state: LightningPayStates::Refunded(refund_out_points),
            },
            Err(_) => LightningPayStateMachine {
                common: old_state.common,
                state: LightningPayStates::Failure("Refund Transaction was rejected.".to_string()),
            },
        }
    }
}

} // verus!
