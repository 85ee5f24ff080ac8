//! The plain values that a payment is made of: identifiers, amounts, the outgoing
//! contract and the gateway.

use bitcoin_hashes::sha256;
use vstd::prelude::*;

verus! {

/// A SHA-256 hash of the `bitcoin_hashes` crate. It is carried through, never read.
#[verifier::external_type_specification]
#[verifier::external_body]
pub struct ExSha256Hash(sha256::Hash);

/// Identifies the client operation that a state machine works for.
#[derive(Debug, Clone, Copy, PartialEq, Eq)]
pub struct OperationId {
    pub bytes: [u8; 32],
}

/// Identifies a transaction of the federation.
#[derive(Debug, Clone, Copy, PartialEq, Eq)]
pub struct TransactionId {
    pub bytes: [u8; 32],
}

/// Identifies a contract that the federation keeps.
#[derive(Debug, Clone, Copy, PartialEq, Eq)]
pub struct ContractId {
    pub bytes: [u8; 32],
}

/// One output of a transaction.
#[derive(Debug, Clone, Copy, PartialEq, Eq)]
pub struct OutPoint {
    pub txid: TransactionId,
    pub out_idx: u64,
}

/// An amount of money in millisatoshi.
#[derive(Debug, Clone, Copy, PartialEq, Eq)]
pub struct Amount {
    pub msats: u64,
}

/// A key pair by its secret key. It has no `Debug`, which would print the secret.
#[derive(Clone, Copy, PartialEq, Eq)]
pub struct KeyPair {
    pub secret: [u8; 32],
}

/// Identifies a federation.
#[derive(Debug, PartialEq, Eq)]
pub struct FederationId {
    pub bytes: Vec<u8>,
}

impl View for FederationId {
    type V = Seq<u8>;

    open spec fn view(&self) -> Seq<u8> {
        self.bytes@
    }
}

impl Clone for FederationId {
    fn clone(&self) -> (r: Self)
        ensures
            r@ == self@,
            r.bytes@ == self.bytes@,
    {
        let bytes = self.bytes.clone();
        assert(bytes@ =~= self.bytes@);
        FederationId { bytes }
    }
}

/// The Lightning invoice to be paid, by what a payment needs of it.
#[derive(Debug, Clone, Copy, PartialEq, Eq)]
pub struct Invoice {
    /// The hash of the preimage that the payee reveals on being paid.
    pub payment_hash: sha256::Hash,
}

impl Invoice {
    /// The hash of the preimage that the payee reveals on being paid.
    pub fn payment_hash(&self) -> (r: &sha256::Hash)
        ensures
            *r == self.payment_hash,
    {
        &self.payment_hash
    }
}

/// A contract that pays the gateway for the preimage of an invoice.
#[derive(Debug, Clone, Copy, PartialEq, Eq)]
pub struct OutgoingContract {
    /// Block height from which on the client can take the money back.
    pub timelock: u32,
    pub invoice: Invoice,
}

/// An outgoing contract with the money that it holds.
#[derive(Debug, PartialEq, Eq)]
pub struct OutgoingContractAccount {
    pub contract: OutgoingContract,
    /// The whole account in the federation's own encoding. It is carried through for
    /// whoever builds the refund's transaction input from it.
    pub encoded: Vec<u8>,
}

/// What an `OutgoingContractAccount` stands for.
pub struct OutgoingContractAccountView {
    pub contract: OutgoingContract,
    pub encoded: Seq<u8>,
}

impl View for OutgoingContractAccount {
    type V = OutgoingContractAccountView;

    open spec fn view(&self) -> OutgoingContractAccountView {
        OutgoingContractAccountView { contract: self.contract, encoded: self.encoded@ }
    }
}

impl Clone for OutgoingContractAccount {
    fn clone(&self) -> (r: Self)
        ensures
            r@ == self@,
            r.contract == self.contract,
            r.encoded@ == self.encoded@,
    {
        let encoded = self.encoded.clone();
        assert(encoded@ =~= self.encoded@);
        OutgoingContractAccount { contract: self.contract, encoded }
    }
}

/// An outgoing contract with the key that takes its money back.
#[derive(PartialEq, Eq)]
pub struct OutgoingContractData {
    pub recovery_key: KeyPair,
    pub contract_account: OutgoingContractAccount,
}

/// What an `OutgoingContractData` stands for.
pub struct OutgoingContractDataView {
    pub recovery_key: KeyPair,
    pub contract_account: OutgoingContractAccountView,
}

impl View for OutgoingContractData {
    type V = OutgoingContractDataView;

    open spec fn view(&self) -> OutgoingContractDataView {
        OutgoingContractDataView {
            recovery_key: self.recovery_key,
            contract_account: self.contract_account@,
        }
    }
}

impl Clone for OutgoingContractData {
    fn clone(&self) -> (r: Self)
        ensures
            r@ == self@,
            r.recovery_key == self.recovery_key,
            r.contract_account.contract == self.contract_account.contract,
            r.contract_account.encoded@ == self.contract_account.encoded@,
    {
        OutgoingContractData {
            recovery_key: self.recovery_key,
            contract_account: self.contract_account.clone(),
        }
    }
}

/// A Lightning gateway that serves the federation.
#[derive(Debug, PartialEq, Eq)]
pub struct LightningGateway {
    /// The base URL of the gateway's API, in its textual form.
    pub api: String,
    /// The gateway's announcement in the federation's own encoding, carried through.
    pub announcement: Vec<u8>,
}

/// What a `LightningGateway` stands for.
pub struct LightningGatewayView {
    pub api: Seq<char>,
    pub announcement: Seq<u8>,
}

impl View for LightningGateway {
    type V = LightningGatewayView;

    open spec fn view(&self) -> LightningGatewayView {
        LightningGatewayView { api: self.api@, announcement: self.announcement@ }
    }
}

impl Clone for LightningGateway {
    fn clone(&self) -> (r: Self)
        ensures
            r@ == self@,
            r.api == self.api,
            r.announcement@ == self.announcement@,
    {
        let announcement = self.announcement.clone();
        assert(announcement@ =~= self.announcement@);
        LightningGateway { api: self.api.clone(), announcement }
    }
}

/// The body of the request by which a gateway is asked to pay.
#[derive(Debug, PartialEq, Eq)]
pub struct PayInvoicePayload {
    pub federation_id: FederationId,
    pub contract_id: ContractId,
}

/// What a `PayInvoicePayload` stands for.
pub struct PayInvoicePayloadView {
    pub federation_id: Seq<u8>,
    pub contract_id: ContractId,
}

impl View for PayInvoicePayload {
    type V = PayInvoicePayloadView;

    open spec fn view(&self) -> PayInvoicePayloadView {
        PayInvoicePayloadView { federation_id: self.federation_id@, contract_id: self.contract_id }
    }
}

impl Clone for PayInvoicePayload {
    fn clone(&self) -> (r: Self)
        ensures
            r@ == self@,
            r.federation_id.bytes@ == self.federation_id.bytes@,
            r.contract_id == self.contract_id,
    {
        PayInvoicePayload {
            federation_id: self.federation_id.clone(),
            contract_id: self.contract_id,
        }
    }
}

impl PayInvoicePayload {
    /// Asks a gateway to claim `contract_id`, a contract of `federation_id`, by paying
    /// its invoice.
    pub fn new(federation_id: FederationId, contract_id: ContractId) -> (r: Self)
        ensures
            r.federation_id == federation_id,
            r.contract_id == contract_id,
    {
        PayInvoicePayload { contract_id, federation_id }
    }
}

} // verus!
