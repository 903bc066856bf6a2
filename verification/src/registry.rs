//! What the gateway decides before and after it writes to the registry: who
//! may grant, what is submitted, and how the registry's failures are
//! reported.

use crate::address::Address;
use crate::document::{DidDocument, Snapshot};
use crate::error::{ContactOperationError, Failure, SignerFailure, SignerFault};
use vstd::prelude::*;
use vstd::slice::*;

verus! {

/// A named capability to attach to an identifier: the name, and the key
/// package that proves possession of the key.
#[derive(Debug)]
pub struct Installation {
    pub name: String,
    pub value: Vec<u8>,
}

/// The state-changing call that grants an installation, ready to be
/// submitted.
#[derive(Debug)]
pub struct RegistryCall {
    /// The address that the identifier names.
    pub identity: Address,
    /// The address that signed the request.
    pub signer: Address,
    /// The recovery value of the signature.
    pub sig_v: u8,
    /// The first scalar of the signature.
    pub sig_r: Vec<u8>,
    /// The second scalar of the signature.
    pub sig_s: Vec<u8>,
    /// The name of the installation.
    pub name: String,
    /// The key package of the installation.
    pub value: Vec<u8>,
}

/// A `RegistryCall` as plain values.
pub struct CallView {
    pub identity: Seq<u8>,
    pub signer: Seq<u8>,
    pub sig_v: u8,
    pub sig_r: Seq<u8>,
    pub sig_s: Seq<u8>,
    pub name: Seq<char>,
    pub value: Seq<u8>,
}

impl View for RegistryCall {
    type V = CallView;

    open spec fn view(&self) -> CallView {
        CallView {
            identity: self.identity@,
            signer: self.signer@,
            sig_v: self.sig_v,
            sig_r: self.sig_r@,
            sig_s: self.sig_s@,
            name: self.name@,
            value: self.value@,
        }
    }
}

/// How a submitted call failed, as the registry client reports it.
#[derive(Debug)]
pub enum CommitFailure {
    /// The contract reverted the call, or its data did not encode.
    Contract(String),
    /// The ledger node could not be reached, or did not answer in time.
    Provider(String),
    /// A number of the registry did not fit its integer width.
    IntConversion,
    /// A value of the registry did not convert to its domain type.
    Type(String),
}

/// A `CommitFailure` as plain values.
pub enum CommitFault {
    Contract(Seq<char>),
    Provider(Seq<char>),
    IntConversion,
    Type(Seq<char>),
}

impl View for CommitFailure {
    type V = CommitFault;

    open spec fn view(&self) -> CommitFault {
        match *self {
            CommitFailure::Contract(c) => CommitFault::Contract(c@),
            CommitFailure::Provider(c) => CommitFault::Provider(c@),
            CommitFailure::IntConversion => CommitFault::IntConversion,
            CommitFailure::Type(c) => CommitFault::Type(c@),
        }
    }
}

/// The failure under which a failed submission is reported: each under its
/// own kind, with its cause unchanged.
pub open spec fn commit_failure(f: CommitFault) -> Failure {
    match f {
        CommitFault::Contract(c) => Failure::ContractError(c),
        CommitFault::Provider(c) => Failure::ProviderError(c),
        CommitFault::IntConversion => Failure::IntConversion,
        CommitFault::Type(c) => Failure::Type(c),
    }
}

/// Reports a failed submission.
pub fn commit_error(failure: CommitFailure) -> (e: ContactOperationError)
    ensures
        e@ == commit_failure(failure@),
{
    match failure {
        CommitFailure::Contract(c) => ContactOperationError::ContractError(c),
        CommitFailure::Provider(c) => ContactOperationError::ProviderError(c),
        CommitFailure::IntConversion => ContactOperationError::IntConversion,
        CommitFailure::Type(c) => ContactOperationError::Type(c),
    }
}

/// A failed resolution, with the identifier that was being resolved.
pub fn resolution_error(cause: String, did: String) -> (e: ContactOperationError)
    ensures
        e@ == Failure::ResolutionError(cause@, did@),
{
    ContactOperationError::ResolutionError(cause, did)
}

/// Why a signer may not grant on a document, if it may not: a deactivated
/// document refuses everyone; an active one refuses all but its controller.
pub open spec fn refusal(document: Snapshot, signer: Seq<u8>) -> Option<Failure> {
    if !document.active {
        Some(Failure::DIDDeactivated)
    } else if document.controller != signer {
        Some(
            Failure::SignatureMismatch(
                SignerFault::NotController { recovered: signer, controller: document.controller },
            ),
        )
    } else {
        None
    }
}

/// Checks that `signer` may grant installations on `document`.
pub fn authorize(document: &DidDocument, signer: &Address) -> (r: Result<
    (),
    ContactOperationError,
>)
    ensures
        r is Ok <==> refusal(document@, signer@) is None,
        r is Err ==> refusal(document@, signer@) == Some(r->Err_0@),
{
    if !document.is_active() {
        return Err(ContactOperationError::DIDDeactivated);
    }
    let controller = document.controller();
    if !controller.same_as(signer) {
        return Err(
            ContactOperationError::SignatureMismatch(
                SignerFailure::NotController { recovered: *signer, controller },
            ),
        );
    }
    Ok(())
}

/// The call that grants an installation, if the recovery value fits the
/// eight bits that the registry takes.
pub open spec fn call_of(
    identity: Seq<u8>,
    signer: Seq<u8>,
    name: Seq<char>,
    value: Seq<u8>,
    v: u64,
    r: Seq<u8>,
    s: Seq<u8>,
) -> Result<CallView, Failure> {
    if v <= 255 {
        Ok(
            CallView {
                identity,
                signer,
                sig_v: v as u8,
                sig_r: r,
                sig_s: s,
                name,
                value,
            },
        )
    } else {
        Err(Failure::IntConversion)
    }
}

/// Builds the call that grants `installation` on the identifier at
/// `identity`, signed by `signer` with the signature `(v, r, s)`.
pub fn prepare_call(
    identity: Address,
    signer: Address,
    installation: Installation,
    v: u64,
    r: &[u8],
    s: &[u8],
) -> (call: Result<RegistryCall, ContactOperationError>)
    ensures
        call_view(call) == call_of(
            identity@,
            signer@,
            installation.name@,
            installation.value@,
            v,
            r@,
            s@,
        ),
{
    if v > 255 {
        return Err(ContactOperationError::IntConversion);
    }
    Ok(
        RegistryCall {
            identity,
            signer,
            sig_v: v as u8,
            sig_r: slice_to_vec(r),
            sig_s: slice_to_vec(s),
            name: installation.name,
            value: installation.value,
        },
    )
}

/// The call that grants an installation on a document, or why there is
/// none: a deactivated document and a signer that is not its controller are
/// refused before the call is built.
pub open spec fn grant_of(
    document: Snapshot,
    identity: Seq<u8>,
    signer: Seq<u8>,
    name: Seq<char>,
    value: Seq<u8>,
    v: u64,
    r: Seq<u8>,
    s: Seq<u8>,
) -> Result<CallView, Failure> {
    match refusal(document, signer) {
        Some(failure) => Err(failure),
        None => call_of(identity, signer, name, value, v, r, s),
    }
}

/// A call, or the failure to build one, as plain values.
pub open spec fn call_view(r: Result<RegistryCall, ContactOperationError>) -> Result<
    CallView,
    Failure,
> {
    match r {
        Ok(call) => Ok(call@),
        Err(e) => Err(e@),
    }
}

/// Decides on the grant of `installation` to the identifier at `identity`,
/// whose resolved document is `document`, for the address `signer` that
/// submits it with the signature `(v, r, s)`: the call to submit, or the
/// failure. Nothing is submitted here.
pub fn grant_installation(
    document: &DidDocument,
    identity: Address,
    signer: Address,
    installation: Installation,
    v: u64,
    r: &[u8],
    s: &[u8],
) -> (call: Result<RegistryCall, ContactOperationError>)
    ensures
        call_view(call) == grant_of(
            document@,
            identity@,
            signer@,
            installation.name@,
            installation.value@,
            v,
            r@,
            s@,
        ),
{
    match authorize(document, &signer) {
        Err(e) => Err(e),
        Ok(()) => prepare_call(identity, signer, installation, v, r, s),
    }
}

} // verus!
