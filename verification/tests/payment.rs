//! Payments from their first state to their last.

use bitcoin_hashes::sha256;
use lightning_pay::created::{FundingEvent, FundingStep};
use lightning_pay::error::GatewayPayError;
use lightning_pay::funded::{GatewayReply, PayInvoiceEvent, PayInvoiceRequest, PayInvoiceStep};
use lightning_pay::refund::AwaitTxAccepted;
use lightning_pay::refundable::{PollEvent, PollStep};
use lightning_pay::states::{
    LightningPayCommon, LightningPayCreatedOutgoingLnContract, LightningPayFunded,
    LightningPayRefund, LightningPayRefundable, LightningPayStateMachine, LightningPayStates,
};
use lightning_pay::transition::{
    PayType, PaymentResult, RefundClaim, StateTransition, TransitionOutcome,
};
use lightning_pay::types::{
    Amount, ContractId, FederationId, Invoice, KeyPair, LightningGateway, OperationId, OutPoint,
    OutgoingContract, OutgoingContractAccount, OutgoingContractData, PayInvoicePayload,
    TransactionId,
};

fn hash() -> sha256::Hash {
    <sha256::Hash as bitcoin_hashes::Hash>::hash(b"preimage")
}

fn account(timelock: u32) -> OutgoingContractAccount {
    OutgoingContractAccount {
        contract: OutgoingContract {
            timelock,
            invoice: Invoice { payment_hash: hash() },
        },
        encoded: vec![9, 8, 7],
    }
}

fn common() -> LightningPayCommon {
    LightningPayCommon {
        operation_id: OperationId { bytes: [1; 32] },
        federation_id: FederationId { bytes: vec![2, 2] },
        contract: OutgoingContractData {
            recovery_key: KeyPair { secret: [3; 32] },
            contract_account: account(700),
        },
        gateway_fee: Amount { msats: 1500 },
    }
}

fn gateway() -> LightningGateway {
    LightningGateway {
        api: "https://gateway.example/v1/".to_string(),
        announcement: vec![5],
    }
}

fn contract_id() -> ContractId {
    ContractId { bytes: [4; 32] }
}

fn txid(n: u8) -> TransactionId {
    TransactionId { bytes: [n; 32] }
}

fn machine(state: LightningPayStates) -> LightningPayStateMachine {
    LightningPayStateMachine {
        common: common(),
        state,
    }
}

fn created() -> LightningPayStateMachine {
    machine(LightningPayStates::CreatedOutgoingLnContract(
        LightningPayCreatedOutgoingLnContract {
            funding_txid: txid(6),
            contract_id: contract_id(),
            gateway: gateway(),
        },
    ))
}

fn payload() -> PayInvoicePayload {
    PayInvoicePayload::new(FederationId { bytes: vec![2, 2] }, contract_id())
}

fn funded(timelock: u32) -> LightningPayStateMachine {
    machine(LightningPayStates::Funded(LightningPayFunded {
        payload: payload(),
        gateway: gateway(),
        timelock,
        payment_hash: hash(),
    }))
}

fn refusal() -> GatewayPayError {
    GatewayPayError::GatewayInternalError {
        error_code: Some(500),
        error_message: "no route".to_string(),
    }
}

fn refundable(timelock: u32) -> LightningPayStateMachine {
    machine(LightningPayStates::Refundable(LightningPayRefundable {
        contract_id: contract_id(),
        block_timelock: timelock,
        error: refusal(),
    }))
}

fn out_points() -> Vec<OutPoint> {
    vec![
        OutPoint {
            txid: txid(7),
            out_idx: 0,
        },
        OutPoint {
            txid: txid(7),
            out_idx: 1,
        },
    ]
}

fn refund() -> LightningPayStateMachine {
    machine(LightningPayStates::Refund(LightningPayRefund {
        txid: txid(7),
        out_points: out_points(),
    }))
}

/// The machine's only transition.
fn only(machine: &LightningPayStateMachine) -> StateTransition {
    let mut transitions = machine.transitions();
    assert_eq!(transitions.len(), 1);
    transitions.pop().unwrap()
}

#[test]
fn created_waits_for_the_funding_transaction() {
    let expected = StateTransition::OutgoingContractFunded {
        txid: txid(6),
        contract_id: contract_id(),
        common: common(),
        gateway: gateway(),
    };
    assert!(only(&created()) == expected);
    assert!(only(&created()).refund_claim().is_none());
}

#[test]
fn accepted_funding_leads_to_funded() {
    let done = only(&created()).complete(
        TransitionOutcome::OutgoingContractFunded(Ok(812)),
        created(),
    );
    assert!(done.machine == funded(812));
    assert_eq!(done.payment_result, None);
}

#[test]
fn rejected_funding_leads_to_canceled() {
    let done = only(&created()).complete(
        TransitionOutcome::OutgoingContractFunded(Err(GatewayPayError::OutgoingContractError)),
        created(),
    );
    assert!(done.machine == machine(LightningPayStates::Canceled));
    assert_eq!(done.payment_result, None);
}

#[test]
fn funding_waits_for_the_first_output() {
    let step = LightningPayCreatedOutgoingLnContract::await_outgoing_contract_funded(
        FundingEvent::Started,
        txid(6),
        contract_id(),
    );
    assert_eq!(
        step,
        FundingStep::AwaitOutputOutcome {
            out_point: OutPoint {
                txid: txid(6),
                out_idx: 0
            },
            timeout_millis: i32::MAX as u64,
        }
    );
}

#[test]
fn funding_fetches_the_contract_and_its_timelock() {
    let next = |event| {
        LightningPayCreatedOutgoingLnContract::await_outgoing_contract_funded(
            event,
            txid(6),
            contract_id(),
        )
    };
    assert_eq!(
        next(FundingEvent::OutputAccepted),
        FundingStep::GetOutgoingContract {
            contract_id: contract_id()
        }
    );
    assert_eq!(
        next(FundingEvent::ContractFetched(account(812))),
        FundingStep::Finished(Ok(812))
    );
}

#[test]
fn funding_fails_without_output_or_contract() {
    for event in [FundingEvent::OutputFailed, FundingEvent::ContractMissing] {
        let step = LightningPayCreatedOutgoingLnContract::await_outgoing_contract_funded(
            event,
            txid(6),
            contract_id(),
        );
        assert_eq!(
            step,
            FundingStep::Finished(Err(GatewayPayError::OutgoingContractError))
        );
    }
}

#[test]
fn funded_waits_for_the_gateway() {
    let expected = StateTransition::OutgoingContractExecuted {
        gateway: gateway(),
        payload: payload(),
        contract_id: contract_id(),
        timelock: 812,
        payment_hash: hash(),
        common: common(),
    };
    assert!(only(&funded(812)) == expected);
}

#[test]
fn a_paid_invoice_is_recorded() {
    let done = only(&funded(812)).complete(
        TransitionOutcome::OutgoingContractExecuted(Ok("c0ffee".to_string())),
        funded(812),
    );
    assert!(done.machine == machine(LightningPayStates::Success("c0ffee".to_string())));
    assert_eq!(
        done.payment_result,
        Some(PaymentResult {
            payment_hash: hash(),
            payment_type: PayType::Lightning(OperationId { bytes: [1; 32] }),
            contract_id: contract_id(),
            fee: Amount { msats: 1500 },
        })
    );
}

#[test]
fn a_refused_payment_is_refundable() {
    let done = only(&funded(812)).complete(
        TransitionOutcome::OutgoingContractExecuted(Err(refusal())),
        funded(812),
    );
    assert!(done.machine == refundable(812));
    assert_eq!(done.payment_result, None);
}

#[test]
fn refundable_waits_for_cancellation_and_for_the_timelock() {
    let transitions = refundable(812).transitions();
    assert_eq!(transitions.len(), 2);
    assert!(
        transitions[0]
            == StateTransition::ContractCancelled {
                contract_id: contract_id(),
                common: common(),
            }
    );
    assert!(
        transitions[1]
            == StateTransition::ContractTimedOut {
                timelock: 812,
                common: common(),
            }
    );
}

#[test]
fn both_ways_out_of_refundable_make_the_same_claim() {
    for transition in refundable(812).transitions() {
        let expected = RefundClaim {
            account: account(700),
            keys: vec![KeyPair { secret: [3; 32] }],
            state_machines: vec![],
        };
        assert!(transition.refund_claim() == Some(expected));
        let done = transition.complete(
            TransitionOutcome::RefundClaimed {
                txid: txid(7),
                out_points: out_points(),
            },
            refundable(812),
        );
        assert!(done.machine == refund());
        assert_eq!(done.payment_result, None);
    }
}

#[test]
fn waiting_for_cancellation_retries_until_it_is_reported() {
    let next = |event| LightningPayRefundable::await_contract_cancellable(event, contract_id());
    let request = PollStep::WaitOutgoingContractCancelled {
        contract_id: contract_id(),
    };
    assert_eq!(next(PollEvent::Started), request);
    assert_eq!(next(PollEvent::Failed), PollStep::Sleep { seconds: 1 });
    assert_eq!(next(PollEvent::Slept), request);
    assert_eq!(next(PollEvent::Succeeded), PollStep::Finished);
}

#[test]
fn waiting_for_the_timelock_retries_until_it_is_reported() {
    let next = |event| LightningPayRefundable::await_contract_timeout(event, u32::MAX);
    let request = PollStep::WaitBlockHeight {
        block_height: 4_294_967_295,
    };
    assert_eq!(next(PollEvent::Started), request);
    assert_eq!(next(PollEvent::Failed), PollStep::Sleep { seconds: 1 });
    assert_eq!(next(PollEvent::Slept), request);
    assert_eq!(next(PollEvent::Succeeded), PollStep::Finished);
}

#[test]
fn refund_waits_for_its_transaction() {
    let expected = StateTransition::RefundDecided {
        common: common(),
        refund_txid: txid(7),
        refund_out_points: out_points(),
    };
    assert!(only(&refund()) == expected);
    assert_eq!(
        LightningPayRefund::await_refund_success(&common(), txid(7)),
        AwaitTxAccepted {
            operation_id: OperationId { bytes: [1; 32] },
            txid: txid(7),
        }
    );
}

#[test]
fn an_accepted_refund_hands_out_its_outputs() {
    let done = only(&refund()).complete(TransitionOutcome::RefundDecided(Ok(())), refund());
    assert!(done.machine == machine(LightningPayStates::Refunded(out_points())));
    assert_eq!(done.payment_result, None);
}

#[test]
fn a_rejected_refund_is_a_failure() {
    let done = only(&refund()).complete(
        TransitionOutcome::RefundDecided(Err("double spend".to_string())),
        refund(),
    );
    assert!(
        done.machine
            == machine(LightningPayStates::Failure(
                "Refund Transaction was rejected.".to_string()
            ))
    );
}

#[test]
fn final_states_wait_for_nothing() {
    for state in [
        LightningPayStates::Canceled,
        LightningPayStates::Success("c0ffee".to_string()),
        LightningPayStates::Refunded(out_points()),
        LightningPayStates::Failure("Refund Transaction was rejected.".to_string()),
    ] {
        assert!(machine(state).transitions().is_empty());
    }
}

#[test]
fn a_failed_payment_ends_refunded_after_four_transitions() {
    let outcomes = [
        TransitionOutcome::OutgoingContractFunded(Ok(812)),
        TransitionOutcome::OutgoingContractExecuted(Err(refusal())),
        TransitionOutcome::RefundClaimed {
            txid: txid(7),
            out_points: out_points(),
        },
        TransitionOutcome::RefundDecided(Ok(())),
    ];
    let mut current = created();
    for outcome in outcomes {
        let transition = current.transitions().remove(0);
        let done = transition.complete(outcome, current);
        assert!(done.payment_result.is_none());
        current = done.machine;
        assert!(current.common == common());
    }
    assert!(current == machine(LightningPayStates::Refunded(out_points())));
    assert!(current.transitions().is_empty());
}

#[test]
fn the_operation_is_that_of_the_payment() {
    assert_eq!(created().operation_id(), OperationId { bytes: [1; 32] });
}

#[test]
fn clones_are_equal() {
    for payment in [created(), funded(812), refundable(812), refund()] {
        assert!(payment.clone() == payment);
    }
    assert!(machine(LightningPayStates::Refunded(out_points())).clone()
        == machine(LightningPayStates::Refunded(out_points())));
}

#[test]
fn the_invoice_hands_out_its_payment_hash() {
    assert_eq!(
        *account(1).contract.invoice.payment_hash(),
        <sha256::Hash as bitcoin_hashes::Hash>::hash(b"preimage")
    );
}

#[test]
fn the_reply_decides_the_payment() {
    let refused = LightningPayFunded::pay_invoice_result(GatewayReply::Received {
        status: 500,
        text: Some("no route".to_string()),
    });
    let done = only(&funded(812)).complete(
        TransitionOutcome::OutgoingContractExecuted(refused),
        funded(812),
    );
    assert!(done.machine == refundable(812));

    let paid = LightningPayFunded::pay_invoice_result(GatewayReply::Received {
        status: 200,
        text: Some("\"c0ffee\"".to_string()),
    });
    let done = only(&funded(812)).complete(
        TransitionOutcome::OutgoingContractExecuted(paid),
        funded(812),
    );
    assert!(done.machine == machine(LightningPayStates::Success("c0ffee".to_string())));
    assert!(done.payment_result.is_some());
}

#[test]
fn two_failed_answers_cost_two_pauses() {
    let mut answers = vec![true, false, false];
    let mut steps = vec![];
    let mut event = PollEvent::Started;
    loop {
        let step = LightningPayRefundable::await_contract_timeout(event, 812);
        steps.push(step);
        event = match step {
            PollStep::WaitBlockHeight { .. } => {
                if answers.pop().unwrap() {
                    PollEvent::Succeeded
                } else {
                    PollEvent::Failed
                }
            }
            PollStep::Sleep { .. } => PollEvent::Slept,
            PollStep::Finished => break,
            PollStep::WaitOutgoingContractCancelled { .. } => unreachable!(),
        };
    }
    let request = PollStep::WaitBlockHeight { block_height: 812 };
    let pause = PollStep::Sleep { seconds: 1 };
    assert_eq!(
        steps,
        vec![request, pause, request, pause, request, PollStep::Finished]
    );
}

#[test]
fn a_created_contract_waits_for_its_own_funding() {
    let transition = only(&created());
    assert_eq!(
        transition.funding_step(FundingEvent::Started),
        Some(FundingStep::AwaitOutputOutcome {
            out_point: OutPoint {
                txid: txid(6),
                out_idx: 0
            },
            timeout_millis: 2_147_483_647,
        })
    );
    assert_eq!(
        transition.funding_step(FundingEvent::OutputAccepted),
        Some(FundingStep::GetOutgoingContract {
            contract_id: contract_id()
        })
    );
    assert_eq!(transition.pay_invoice_step(PayInvoiceEvent::Started), None);
    assert_eq!(transition.poll_step(PollEvent::Started), None);
    assert_eq!(transition.refund_wait(), None);
}

#[test]
fn a_funded_contract_waits_for_its_own_gateway() {
    let transition = only(&funded(812));
    assert_eq!(
        transition.pay_invoice_step(PayInvoiceEvent::Started),
        Some(PayInvoiceStep::Post(PayInvoiceRequest {
            url: "https://gateway.example/v1/pay_invoice".to_string(),
            payload: payload(),
        }))
    );
    assert_eq!(transition.funding_step(FundingEvent::Started), None);
    assert_eq!(transition.poll_step(PollEvent::Started), None);
    assert_eq!(transition.refund_wait(), None);
}

#[test]
fn a_refundable_contract_waits_for_its_own_cancellation_and_timelock() {
    let transitions = refundable(812).transitions();
    assert_eq!(
        transitions[0].poll_step(PollEvent::Started),
        Some(PollStep::WaitOutgoingContractCancelled {
            contract_id: contract_id()
        })
    );
    assert_eq!(
        transitions[1].poll_step(PollEvent::Slept),
        Some(PollStep::WaitBlockHeight { block_height: 812 })
    );
    for transition in transitions {
        assert_eq!(
            transition.poll_step(PollEvent::Failed),
            Some(PollStep::Sleep { seconds: 1 })
        );
        assert_eq!(
            transition.poll_step(PollEvent::Succeeded),
            Some(PollStep::Finished)
        );
        assert_eq!(transition.funding_step(FundingEvent::Started), None);
        assert_eq!(transition.pay_invoice_step(PayInvoiceEvent::Started), None);
        assert_eq!(transition.refund_wait(), None);
    }
}

#[test]
fn a_refund_waits_for_its_own_transaction() {
    let transition = only(&refund());
    assert_eq!(
        transition.refund_wait(),
        Some(AwaitTxAccepted {
            operation_id: OperationId { bytes: [1; 32] },
            txid: txid(7),
        })
    );
    assert_eq!(transition.funding_step(FundingEvent::Started), None);
    assert_eq!(transition.pay_invoice_step(PayInvoiceEvent::Started), None);
    assert_eq!(transition.poll_step(PollEvent::Started), None);
}

#[test]
fn the_answers_decide_the_funding() {
    for (event, expected) in [
        (FundingEvent::ContractFetched(account(812)), funded(812)),
        (
            FundingEvent::ContractMissing,
            machine(LightningPayStates::Canceled),
        ),
        (
            FundingEvent::OutputFailed,
            machine(LightningPayStates::Canceled),
        ),
    ] {
        let transition = only(&created());
        let result = match transition.funding_step(event) {
            Some(FundingStep::Finished(result)) => result,
            _ => unreachable!(),
        };
        let outcome = TransitionOutcome::OutgoingContractFunded(result);
        assert!(transition.complete(outcome, created()).machine == expected);
    }
}

/// One outcome of each kind.
fn outcomes() -> Vec<TransitionOutcome> {
    vec![
        TransitionOutcome::OutgoingContractFunded(Ok(812)),
        TransitionOutcome::OutgoingContractExecuted(Err(refusal())),
        TransitionOutcome::RefundClaimed {
            txid: txid(7),
            out_points: out_points(),
        },
        TransitionOutcome::RefundDecided(Err("double spend".to_string())),
    ]
}

#[test]
fn transitions_accept_outcomes_of_their_own_kind_only() {
    for (kind, payment) in [created(), funded(812), refundable(812), refund()]
        .iter()
        .enumerate()
    {
        for transition in payment.transitions() {
            for (i, outcome) in outcomes().iter().enumerate() {
                assert_eq!(transition.accepts_outcome(outcome), i == kind);
            }
        }
    }
}

#[test]
fn a_cloned_transition_can_be_completed_again() {
    for payment in [created(), funded(812), refundable(812), refund()] {
        for transition in payment.transitions() {
            assert!(transition.clone() == transition);
            for outcome in outcomes() {
                assert_eq!(outcome.clone(), outcome);
                if transition.accepts_outcome(&outcome) {
                    let first = transition
                        .clone()
                        .complete(outcome.clone(), payment.clone());
                    let second = transition.clone().complete(outcome, payment.clone());
                    assert!(first == second);
                }
            }
        }
    }
}

#[test]
fn a_payment_is_either_recorded_or_refunded() {
    for (reply, recorded, claimed) in [(Ok("c0ffee".to_string()), 1, 0), (Err(refusal()), 0, 1)] {
        let mut outcomes = vec![
            TransitionOutcome::RefundDecided(Ok(())),
            TransitionOutcome::RefundClaimed {
                txid: txid(7),
                out_points: out_points(),
            },
            TransitionOutcome::OutgoingContractExecuted(reply),
            TransitionOutcome::OutgoingContractFunded(Ok(812)),
        ];
        let (mut records, mut claims) = (0, 0);
        let mut current = created();
        while let Some(transition) = current.transitions().pop() {
            if transition.refund_claim().is_some() {
                claims += 1;
            }
            let done = transition.complete(outcomes.pop().unwrap(), current);
            if done.payment_result.is_some() {
                records += 1;
            }
            current = done.machine;
        }
        assert_eq!((records, claims), (recorded, claimed));
    }
}
