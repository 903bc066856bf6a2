//! The pipeline that turns a signed request to grant an installation into a
//! committed registry call or a classified failure.
//!
//! The pipeline decides; it does not reach the ledger. It hands out one
//! action at a time, and moves on when it is given the event that reports how
//! that action ended: resolve the document, verify the key package, commit
//! the call. Every failure ends the request.

use crate::address::{address_from_hex, optional_address, parsed_address, Address};
use crate::did::{address_part, address_text};
use crate::document::{snapshot_of, DidDocument, Resolution, Snapshot};
use crate::error::{ContactOperationError, Failure, SignerFailure, SignerFault};
use crate::hexbytes::{bytes_from_hex, decode_hex, parsed_bytes};
use crate::registry::{
    authorize, commit_error, commit_failure, grant_installation, grant_of, refusal,
    resolution_error, CallView, CommitFailure, CommitFault, Installation, RegistryCall,
};
use crate::signature::{payload, recover, request_payload, signer_of, Signature};
use vstd::prelude::*;
use vstd::slice::*;
use vstd::string::*;

verus! {

/// A request that has passed the checks that need no registry: its address
/// parsed, its byte fields decoded, its signer recovered.
#[derive(Debug)]
pub struct Admitted {
    /// The identifier as it was given.
    pub did: String,
    /// The address that the identifier names.
    pub identity: Address,
    /// The name of the installation.
    pub name: String,
    /// The key package of the installation.
    pub value: Vec<u8>,
    /// The recovery value of the signature.
    pub v: u64,
    /// The first scalar of the signature, thirty-two bytes.
    pub r: Vec<u8>,
    /// The second scalar of the signature, thirty-two bytes.
    pub s: Vec<u8>,
    /// The address that signed the canonical payload.
    pub signer: Address,
}

/// An `Admitted` as plain values.
pub struct AdmittedView {
    pub did: Seq<char>,
    pub identity: Seq<u8>,
    pub name: Seq<char>,
    pub value: Seq<u8>,
    pub v: u64,
    pub r: Seq<u8>,
    pub s: Seq<u8>,
    pub signer: Seq<u8>,
}

impl View for Admitted {
    type V = AdmittedView;

    open spec fn view(&self) -> AdmittedView {
        AdmittedView {
            did: self.did@,
            identity: self.identity@,
            name: self.name@,
            value: self.value@,
            v: self.v,
            r: self.r@,
            s: self.s@,
            signer: self.signer@,
        }
    }
}

/// The result object of a granted installation: what was granted to whom,
/// and the transaction that committed it.
#[derive(Debug)]
pub struct GrantInstallationResult {
    pub did: String,
    pub name: String,
    pub value: Vec<u8>,
    pub transaction: Vec<u8>,
}

/// A `GrantInstallationResult` as plain values.
pub struct GrantView {
    pub did: Seq<char>,
    pub name: Seq<char>,
    pub value: Seq<u8>,
    pub transaction: Seq<u8>,
}

impl View for GrantInstallationResult {
    type V = GrantView;

    open spec fn view(&self) -> GrantView {
        GrantView {
            did: self.did@,
            name: self.name@,
            value: self.value@,
            transaction: self.transaction@,
        }
    }
}

/// An admission, or its failure, as plain values.
pub open spec fn admission_view(r: Result<Admitted, ContactOperationError>) -> Result<
    AdmittedView,
    Failure,
> {
    match r {
        Ok(a) => Ok(a@),
        Err(e) => Err(e@),
    }
}

/// The end of a request as plain values.
pub open spec fn outcome_view(r: Result<GrantInstallationResult, ContactOperationError>) -> Result<
    GrantView,
    Failure,
> {
    match r {
        Ok(g) => Ok(g@),
        Err(e) => Err(e@),
    }
}

/// The words under which a scalar of the wrong length is refused.
pub open spec fn scalar_length_text() -> Seq<char> {
    "signature scalar is not 32 bytes long"@
}

/// Whether a request is admitted, given what the parsing of its address, the
/// decoding of its two scalars and of its value, and the recovery of its
/// signer have yielded. The first failure in that order is the one reported:
/// a bad address, then bytes that do not parse or scalars of the wrong
/// length, then a signature from which no signer is recovered.
pub open spec fn decide_admission(
    did: Seq<char>,
    name: Seq<char>,
    v: u64,
    address: Result<Seq<u8>, Seq<char>>,
    r: Result<Seq<u8>, Seq<char>>,
    s: Result<Seq<u8>, Seq<char>>,
    value: Result<Seq<u8>, Seq<char>>,
    signer: Option<Seq<u8>>,
) -> Result<AdmittedView, Failure> {
    if address is Err {
        Err(Failure::BadAddress(address->Err_0))
    } else if r is Err {
        Err(Failure::ParseBytes(r->Err_0))
    } else if s is Err {
        Err(Failure::ParseBytes(s->Err_0))
    } else if value is Err {
        Err(Failure::ParseBytes(value->Err_0))
    } else if r->Ok_0.len() != 32 || s->Ok_0.len() != 32 {
        Err(Failure::ParseBytes(scalar_length_text()))
    } else if signer is None {
        Err(Failure::SignatureMismatch(SignerFault::Unrecoverable))
    } else {
        Ok(
            AdmittedView {
                did,
                identity: address->Ok_0,
                name,
                v,
                value: value->Ok_0,
                r: r->Ok_0,
                s: s->Ok_0,
                signer: signer->Some_0,
            },
        )
    }
}

/// Decides whether a request is admitted, from what parsing, decoding and
/// recovery have yielded.
pub fn accept(
    did: &str,
    name: &str,
    v: u64,
    address: Result<Address, String>,
    r: Result<Vec<u8>, String>,
    s: Result<Vec<u8>, String>,
    value: Result<Vec<u8>, String>,
    signer: Option<Address>,
) -> (admitted: Result<Admitted, ContactOperationError>)
    ensures
        admission_view(admitted) == decide_admission(
            did@,
            name@,
            v,
            parsed_address(address),
            parsed_bytes(r),
            parsed_bytes(s),
            parsed_bytes(value),
            optional_address(signer),
        ),
{
    let identity = match address {
        Ok(a) => a,
        Err(cause) => {
            return Err(ContactOperationError::BadAddress(cause));
        },
    };
    let r = match r {
        Ok(b) => b,
        Err(cause) => {
            return Err(ContactOperationError::ParseBytes(cause));
        },
    };
    let s = match s {
        Ok(b) => b,
        Err(cause) => {
            return Err(ContactOperationError::ParseBytes(cause));
        },
    };
    let value = match value {
        Ok(b) => b,
        Err(cause) => {
            return Err(ContactOperationError::ParseBytes(cause));
        },
    };
    if r.len() != 32 || s.len() != 32 {
        return Err(
            ContactOperationError::ParseBytes(
                String::from_str("signature scalar is not 32 bytes long"),
            ),
        );
    }
    let signer = match signer {
        Some(a) => a,
        None => {
            return Err(ContactOperationError::SignatureMismatch(SignerFailure::Unrecoverable));
        },
    };
    Ok(
        Admitted {
            did: String::from_str(did),
            identity,
            name: String::from_str(name),
            value,
            v,
            r,
            s,
            signer,
        },
    )
}

/// Whether a request is admitted: `decide_admission` on what the parser of
/// addresses, the decoder of bytes and the recovery of signers yield for it.
/// The signer is recovered from the canonical payload of the identifier, the
/// name and the decoded value.
pub open spec fn admission(
    did: Seq<char>,
    name: Seq<char>,
    value: Seq<char>,
    v: u64,
    r: Seq<char>,
    s: Seq<char>,
) -> Result<AdmittedView, Failure> {
    let rb = bytes_from_hex(r);
    let sb = bytes_from_hex(s);
    let vb = bytes_from_hex(value);
    decide_admission(
        did,
        name,
        v,
        address_from_hex(address_text(did)),
        rb,
        sb,
        vb,
        if rb is Ok && sb is Ok && vb is Ok {
            signer_of(
                v,
                rb->Ok_0,
                sb->Ok_0,
                request_payload(did, name, vb->Ok_0),
            )
        } else {
            None
        },
    )
}

/// What the pipeline asks its driver to do next.
#[derive(Debug)]
pub enum Action {
    /// Resolve the document of the identifier, and report `Event::Resolved`.
    Resolve { did: String, identity: Address },
    /// Verify the key package, and report `Event::KeyPackageVerified`.
    VerifyKeyPackage { bytes: Vec<u8> },
    /// Submit the call once, and report `Event::Committed`.
    Commit(RegistryCall),
    /// Answer the request: it has ended.
    Finish(Result<GrantInstallationResult, ContactOperationError>),
}

/// An `Action` as plain values.
pub enum ActionView {
    Resolve { did: Seq<char>, identity: Seq<u8> },
    VerifyKeyPackage { bytes: Seq<u8> },
    Commit(CallView),
    Finish(Result<GrantView, Failure>),
}

impl View for Action {
    type V = ActionView;

    open spec fn view(&self) -> ActionView {
        match *self {
            Action::Resolve { did, identity } => ActionView::Resolve {
                did: did@,
                identity: identity@,
            },
            Action::VerifyKeyPackage { bytes } => ActionView::VerifyKeyPackage { bytes: bytes@ },
            Action::Commit(call) => ActionView::Commit(call@),
            Action::Finish(outcome) => ActionView::Finish(outcome_view(outcome)),
        }
    }
}

/// How an action ended, as the driver reports it.
#[derive(Debug)]
pub enum Event {
    /// The registry's answer for the identifier, or the resolver's words on
    /// why there is none.
    Resolved(Result<Resolution, String>),
    /// The verifier's verdict on the key package: valid, or its words on why
    /// not.
    KeyPackageVerified(Result<(), String>),
    /// The transaction that committed the call, or how the submission
    /// failed.
    Committed(Result<Vec<u8>, CommitFailure>),
}

/// An `Event` as plain values.
pub enum EventView {
    Resolved(Result<Snapshot, Seq<char>>),
    KeyPackageVerified(Result<(), Seq<char>>),
    Committed(Result<Seq<u8>, CommitFault>),
}

impl View for Event {
    type V = EventView;

    open spec fn view(&self) -> EventView {
        match *self {
            Event::Resolved(Ok(resolution)) => EventView::Resolved(Ok(snapshot_of(resolution))),
            Event::Resolved(Err(cause)) => EventView::Resolved(Err(cause@)),
            Event::KeyPackageVerified(Ok(())) => EventView::KeyPackageVerified(Ok(())),
            Event::KeyPackageVerified(Err(cause)) => EventView::KeyPackageVerified(Err(cause@)),
            Event::Committed(Ok(transaction)) => EventView::Committed(Ok(transaction@)),
            Event::Committed(Err(failure)) => EventView::Committed(Err(failure@)),
        }
    }
}

/// Where a request stands, as plain values. Parsing the address and
/// recovering the signer come before the first of these states, and the
/// check of the document falls between the first and the second.
pub enum PipelineView {
    /// The document is being resolved.
    AwaitingResolution(AdmittedView),
    /// The document, held here, allowed the grant; the key package is being
    /// verified.
    AwaitingVerification(AdmittedView, Snapshot),
    /// The call has been handed out for submission.
    AwaitingCommit(AdmittedView, Snapshot),
    /// The request has ended, granted or failed.
    Finished,
}

impl PipelineView {
    /// What holds of every state that a request can reach: past resolution,
    /// the document that was resolved for this request was active and
    /// controlled by the signer.
    pub open spec fn wf(self) -> bool {
        match self {
            PipelineView::AwaitingResolution(_) => true,
            PipelineView::AwaitingVerification(a, document) => refusal(document, a.signer) is None,
            PipelineView::AwaitingCommit(a, document) => refusal(document, a.signer) is None,
            PipelineView::Finished => true,
        }
    }
}

/// The state and the first action of a request, from its admission.
pub open spec fn begin(admitted: Result<AdmittedView, Failure>) -> (PipelineView, ActionView) {
    match admitted {
        Ok(a) => (
            PipelineView::AwaitingResolution(a),
            ActionView::Resolve { did: a.did, identity: a.identity },
        ),
        Err(f) => (PipelineView::Finished, ActionView::Finish(Err(f))),
    }
}

/// The state and the action that follow when `event` is reported in `state`;
/// `None` when the event is not the one that the state waits for.
pub open spec fn next(state: PipelineView, event: EventView) -> Option<
    (PipelineView, ActionView),
> {
    match (state, event) {
        (PipelineView::AwaitingResolution(a), EventView::Resolved(Err(cause))) => Some(
            (
                PipelineView::Finished,
                ActionView::Finish(Err(Failure::ResolutionError(cause, a.did))),
            ),
        ),
        (PipelineView::AwaitingResolution(a), EventView::Resolved(Ok(document))) => {
            match refusal(document, a.signer) {
                Some(f) => Some((PipelineView::Finished, ActionView::Finish(Err(f)))),
                None => Some(
                    (
                        PipelineView::AwaitingVerification(a, document),
                        ActionView::VerifyKeyPackage { bytes: a.value },
                    ),
                ),
            }
        },
        (PipelineView::AwaitingVerification(a, document), EventView::KeyPackageVerified(Err(cause))) => {
            Some((PipelineView::Finished, ActionView::Finish(Err(Failure::KeyPackage(cause)))))
        },
        (PipelineView::AwaitingVerification(a, document), EventView::KeyPackageVerified(Ok(_))) => {
            match grant_of(document, a.identity, a.signer, a.name, a.value, a.v, a.r, a.s) {
                Err(f) => Some((PipelineView::Finished, ActionView::Finish(Err(f)))),
                Ok(call) => Some(
                    (PipelineView::AwaitingCommit(a, document), ActionView::Commit(call)),
                ),
            }
        },
        (PipelineView::AwaitingCommit(a, document), EventView::Committed(Err(fault))) => Some(
            (PipelineView::Finished, ActionView::Finish(Err(commit_failure(fault)))),
        ),
        (PipelineView::AwaitingCommit(a, document), EventView::Committed(Ok(transaction))) => Some(
            (
                PipelineView::Finished,
                ActionView::Finish(
                    Ok(GrantView { did: a.did, name: a.name, value: a.value, transaction }),
                ),
            ),
        ),
        _ => None,
    }
}

enum State {
    AwaitingResolution(Admitted),
    AwaitingVerification(Admitted, DidDocument),
    AwaitingCommit(Admitted, DidDocument),
    Finished,
}

/// One request on its way through the pipeline.
pub struct Pipeline {
    state: State,
}

impl View for Pipeline {
    type V = PipelineView;

    closed spec fn view(&self) -> PipelineView {
        match self.state {
            State::AwaitingResolution(a) => PipelineView::AwaitingResolution(a@),
            State::AwaitingVerification(a, d) => PipelineView::AwaitingVerification(a@, d@),
            State::AwaitingCommit(a, d) => PipelineView::AwaitingCommit(a@, d@),
            State::Finished => PipelineView::Finished,
        }
    }
}

impl Pipeline {
    #[verifier::type_invariant]
    closed spec fn inv(self) -> bool {
        self@.wf()
    }

    /// Enters the pipeline with an admission: an admitted request asks for
    /// its document, a refused one ends at once.
    pub fn begin(admitted: Result<Admitted, ContactOperationError>) -> (out: (Pipeline, Action))
        ensures
            (out.0@, out.1@) == begin(admission_view(admitted)),
            out.0@.wf(),
    {
        match admitted {
            Ok(a) => {
                let action = Action::Resolve { did: a.did.clone(), identity: a.identity };
                (Pipeline { state: State::AwaitingResolution(a) }, action)
            },
            Err(e) => (Pipeline { state: State::Finished }, Action::Finish(Err(e))),
        }
    }

    /// Starts a request to grant the installation `(name, value)` to `did`:
    /// parses the address, decodes the byte fields, recovers the signer, and
    /// enters the pipeline with what that yields.
    pub fn start(did: &str, name: &str, value: &str, signature: &Signature) -> (out: (
        Pipeline,
        Action,
    ))
        ensures
            (out.0@, out.1@) == begin(
                admission(did@, name@, value@, signature.v, signature.r@, signature.s@),
            ),
            out.0@.wf(),
    {
        let address = Address::parse(address_part(did));
        let r = decode_hex(signature.r.as_str());
        let s = decode_hex(signature.s.as_str());
        let value = decode_hex(value);
        let signer = match (&r, &s, &value) {
            (Ok(rb), Ok(sb), Ok(vb)) => {
                let message = payload(did, name, vb.as_slice());
                recover(signature.v, rb.as_slice(), sb.as_slice(), message.as_slice())
            },
            _ => None,
        };
        Pipeline::begin(accept(did, name, signature.v, address, r, s, value, signer))
    }

    /// Whether the request has ended.
    pub fn is_finished(&self) -> (done: bool)
        ensures
            done == (self@ is Finished),
    {
        match self.state {
            State::Finished => true,
            _ => false,
        }
    }

    /// Takes the report of how the last action ended, and hands out the next
    /// action. An event that the pipeline does not wait for changes nothing
    /// and yields no action.
    pub fn step(self, event: Event) -> (out: (Pipeline, Option<Action>))
        ensures
            next(self@, event@) is Some ==> out.1 is Some && (out.0@, out.1->Some_0@) == next(
                self@,
                event@,
            )->Some_0,
            next(self@, event@) is None ==> out.1 is None && out.0@ == self@,
            out.0@.wf(),
    {
        proof {
            use_type_invariant(&self);
        }
        match self.state {
            State::AwaitingResolution(a) => match event {
                Event::Resolved(Err(cause)) => (
                    Pipeline { state: State::Finished },
                    Some(Action::Finish(Err(resolution_error(cause, a.did)))),
                ),
                Event::Resolved(Ok(resolution)) => {
                    let document = DidDocument::from_resolution(resolution);
                    match authorize(&document, &a.signer) {
                        Err(e) => (
                            Pipeline { state: State::Finished },
                            Some(Action::Finish(Err(e))),
                        ),
                        Ok(()) => {
                            let bytes = slice_to_vec(a.value.as_slice());
                            (
                                Pipeline { state: State::AwaitingVerification(a, document) },
                                Some(Action::VerifyKeyPackage { bytes }),
                            )
                        },
                    }
                },
                _ => (Pipeline { state: State::AwaitingResolution(a) }, None),
            },
            State::AwaitingVerification(a, document) => match event {
                Event::KeyPackageVerified(Err(cause)) => (
                    Pipeline { state: State::Finished },
                    Some(Action::Finish(Err(ContactOperationError::KeyPackage(cause)))),
                ),
                Event::KeyPackageVerified(Ok(())) => {
                    let installation = Installation {
                        name: a.name.clone(),
                        value: slice_to_vec(a.value.as_slice()),
                    };
                    match grant_installation(
                        &document,
                        a.identity,
                        a.signer,
                        installation,
                        a.v,
                        a.r.as_slice(),
                        a.s.as_slice(),
                    ) {
                        Err(e) => (
                            Pipeline { state: State::Finished },
                            Some(Action::Finish(Err(e))),
                        ),
                        Ok(call) => (
                            Pipeline { state: State::AwaitingCommit(a, document) },
                            Some(Action::Commit(call)),
                        ),
                    }
                },
                _ => (Pipeline { state: State::AwaitingVerification(a, document) }, None),
            },
            State::AwaitingCommit(a, document) => match event {
                Event::Committed(Err(failure)) => (
                    Pipeline { state: State::Finished },
                    Some(Action::Finish(Err(commit_error(failure)))),
                ),
                Event::Committed(Ok(transaction)) => (
                    Pipeline { state: State::Finished },
                    Some(
                        Action::Finish(
                            Ok(
                                GrantInstallationResult {
                                    did: a.did,
                                    name: a.name,
                                    value: a.value,
                                    transaction,
                                },
                            ),
                        ),
                    ),
                ),
                _ => (Pipeline { state: State::AwaitingCommit(a, document) }, None),
            },
            State::Finished => (Pipeline { state: State::Finished }, None),
        }
    }
}

} // verus!
