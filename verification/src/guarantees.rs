//! What holds of every request, whatever the driver reports: which failures
//! end it, and when a call may be handed out for submission.

use crate::address::address_from_hex;
use crate::did::address_text;
use crate::document::Snapshot;
use crate::error::{kind_of_failure, ErrorKind, Failure};
use crate::pipeline::{
    admission, begin, decide_admission, next, ActionView, AdmittedView, EventView, PipelineView,
};
use crate::registry::{call_of, commit_failure, CommitFault};
use vstd::prelude::*;

verus! {

/// The actions that a driver is handed, in order, when it reports `events`
/// one after another to a request in `state`. Events that the request does
/// not wait for are passed over.
pub open spec fn actions(state: PipelineView, events: Seq<EventView>) -> Seq<ActionView>
    decreases events.len(),
{
    if events.len() == 0 {
        Seq::empty()
    } else {
        match next(state, events[0]) {
            Some((following, action)) => seq![action] + actions(following, events.drop_first()),
            None => actions(state, events.drop_first()),
        }
    }
}

/// How many of the actions hand out a call for submission.
pub open spec fn commit_count(actions: Seq<ActionView>) -> nat
    decreases actions.len(),
{
    if actions.len() == 0 {
        0
    } else if actions[0] is Commit {
        1 + commit_count(actions.drop_first())
    } else {
        commit_count(actions.drop_first())
    }
}

/// How many actions a request in `state` can still hand out.
pub open spec fn steps_left(state: PipelineView) -> nat {
    match state {
        PipelineView::AwaitingResolution(_) => 3,
        PipelineView::AwaitingVerification(_, _) => 2,
        PipelineView::AwaitingCommit(_, _) => 1,
        PipelineView::Finished => 0,
    }
}

/// A request that has ended stays ended: it takes no event and hands out no
/// action, so nothing is written to the registry after a failure.
pub proof fn lemma_finished_is_final(events: Seq<EventView>)
    ensures
        forall|event: EventView| next(PipelineView::Finished, event) is None,
        actions(PipelineView::Finished, events) == Seq::<ActionView>::empty(),
    decreases events.len(),
{
    if events.len() > 0 {
        lemma_finished_is_final(events.drop_first());
    }
}

/// Every action that answers the request leaves it ended, and every other
/// action leaves it waiting: no step begins before the result of the one
/// before is known, and no failure is followed by another step.
pub proof fn lemma_finish_ends_request(state: PipelineView, event: EventView)
    requires
        next(state, event) is Some,
    ensures
        next(state, event)->Some_0.1 is Finish <==> next(state, event)->Some_0.0 is Finished,
        steps_left(next(state, event)->Some_0.0) < steps_left(state),
{
}

/// The states that a request can reach are closed under every event.
pub proof fn lemma_wf_is_kept(state: PipelineView, event: EventView)
    requires
        state.wf(),
        next(state, event) is Some,
    ensures
        next(state, event)->Some_0.0.wf(),
{
}

/// A call is handed out for submission only when the document resolved for
/// this request is active and controlled by the signer, and the key package
/// was found valid; it is the call made of the admitted request.
pub proof fn lemma_commit_follows_checks(state: PipelineView, event: EventView)
    requires
        next(state, event) is Some,
        next(state, event)->Some_0.1 is Commit,
    ensures
        state is AwaitingVerification,
        state->AwaitingVerification_1.active,
        state->AwaitingVerification_1.controller == state->AwaitingVerification_0.signer,
        event is KeyPackageVerified,
        event->KeyPackageVerified_0 is Ok,
        next(state, event)->Some_0.0 == PipelineView::AwaitingCommit(
            state->AwaitingVerification_0,
            state->AwaitingVerification_1,
        ),
        ({
            let a = state->AwaitingVerification_0;
            call_of(a.identity, a.signer, a.name, a.value, a.v, a.r, a.s) == Ok::<_, Failure>(
                next(state, event)->Some_0.1->Commit_0,
            )
        }),
{
}

/// An address text that does not parse ends the request with `BadAddress`
/// and the parser's words, whatever the other fields hold; nothing is
/// resolved and nothing is written, whatever is reported afterwards.
pub proof fn lemma_bad_address_ends_request(
    did: Seq<char>,
    name: Seq<char>,
    value: Seq<char>,
    v: u64,
    r: Seq<char>,
    s: Seq<char>,
    events: Seq<EventView>,
)
    requires
        address_from_hex(address_text(did)) is Err,
    ensures
        admission(did, name, value, v, r, s) == Err::<AdmittedView, Failure>(
            Failure::BadAddress(address_from_hex(address_text(did))->Err_0),
        ),
        begin(admission(did, name, value, v, r, s)) == (
            PipelineView::Finished,
            ActionView::Finish(
                Err(Failure::BadAddress(address_from_hex(address_text(did))->Err_0)),
            ),
        ),
        actions(begin(admission(did, name, value, v, r, s)).0, events) == Seq::<
            ActionView,
        >::empty(),
{
    lemma_finished_is_final(events);
}

/// A refused admission of any kind ends the request at once, and a granted
/// one asks for the document first: nothing is written before the signer is
/// recovered.
pub proof fn lemma_admission_comes_first(
    admitted: Result<AdmittedView, Failure>,
    events: Seq<EventView>,
)
    ensures
        admitted is Err ==> begin(admitted) == (
            PipelineView::Finished,
            ActionView::Finish(Err::<_, Failure>(admitted->Err_0)),
        ) && actions(begin(admitted).0, events) == Seq::<ActionView>::empty(),
        admitted is Ok ==> begin(admitted).1 is Resolve && begin(admitted).0.wf(),
{
    lemma_finished_is_final(events);
}

/// A document that is not active ends the request with `DIDDeactivated`,
/// whoever signed it and whatever its key package holds; no call is handed
/// out, whatever is reported afterwards.
pub proof fn lemma_deactivated_ends_request(
    request: AdmittedView,
    document: Snapshot,
    events: Seq<EventView>,
)
    requires
        !document.active,
    ensures
        next(PipelineView::AwaitingResolution(request), EventView::Resolved(Ok(document))) == Some(
            (PipelineView::Finished, ActionView::Finish(Err(Failure::DIDDeactivated))),
        ),
        actions(
            PipelineView::AwaitingResolution(request),
            seq![EventView::Resolved(Ok(document))] + events,
        ) == seq![ActionView::Finish(Err(Failure::DIDDeactivated))],
{
    let all = seq![EventView::Resolved(Ok::<_, Seq<char>>(document))] + events;
    assert(all[0] == EventView::Resolved(Ok::<_, Seq<char>>(document)));
    assert(all.drop_first() =~= events);
    lemma_finished_is_final(events);
    assert(actions(PipelineView::AwaitingResolution(request), all) =~= seq![
        ActionView::Finish(Err(Failure::DIDDeactivated)),
    ]);
}

/// A key package that the verifier refuses ends the request with
/// `KeyPackage` and the verifier's words; no call is handed out, whatever is
/// reported afterwards.
pub proof fn lemma_refused_key_package_ends_request(
    request: AdmittedView,
    document: Snapshot,
    cause: Seq<char>,
    events: Seq<EventView>,
)
    ensures
        next(
            PipelineView::AwaitingVerification(request, document),
            EventView::KeyPackageVerified(Err(cause)),
        ) == Some(
            (PipelineView::Finished, ActionView::Finish(Err(Failure::KeyPackage(cause)))),
        ),
        actions(
            PipelineView::AwaitingVerification(request, document),
            seq![EventView::KeyPackageVerified(Err(cause))] + events,
        ) == seq![ActionView::Finish(Err(Failure::KeyPackage(cause)))],
{
    let all = seq![EventView::KeyPackageVerified(Err(cause))] + events;
    assert(all[0] == EventView::KeyPackageVerified(Err(cause)));
    assert(all.drop_first() =~= events);
    lemma_finished_is_final(events);
    assert(actions(PipelineView::AwaitingVerification(request, document), all) =~= seq![
        ActionView::Finish(Err(Failure::KeyPackage(cause))),
    ]);
}

/// A failed resolution is reported as `ResolutionError` with the identifier,
/// never as a deactivated identifier: "could not look up" and "looked up,
/// but inactive" stay apart.
pub proof fn lemma_unresolved_is_not_deactivated(request: AdmittedView, cause: Seq<char>)
    ensures
        next(PipelineView::AwaitingResolution(request), EventView::Resolved(Err(cause))) == Some(
            (
                PipelineView::Finished,
                ActionView::Finish(Err(Failure::ResolutionError(cause, request.did))),
            ),
        ),
{
}

/// A failed submission is reported under the kind that the registry client
/// gave it, and under no other.
pub proof fn lemma_commit_failure_keeps_kind(fault: CommitFault)
    ensures
        fault is Contract <==> kind_of_failure(commit_failure(fault)) == ErrorKind::ContractError,
        fault is Provider <==> kind_of_failure(commit_failure(fault)) == ErrorKind::ProviderError,
        fault is IntConversion <==> kind_of_failure(commit_failure(fault))
            == ErrorKind::IntConversion,
        fault is Type <==> kind_of_failure(commit_failure(fault)) == ErrorKind::TypeConversion,
{
}

/// Counting commits in a sequence with one more action in front.
proof fn lemma_commit_count_cons(first: ActionView, rest: Seq<ActionView>)
    ensures
        commit_count(seq![first] + rest) == commit_count(rest) + if first is Commit {
            1nat
        } else {
            0nat
        },
{
    assert((seq![first] + rest).drop_first() =~= rest);
}

/// Whatever the driver reports, and in whatever order, a request hands out
/// at most three actions and at most one call for submission; once a call
/// has been handed out, none follows.
pub proof fn lemma_commit_at_most_once(state: PipelineView, events: Seq<EventView>)
    ensures
        actions(state, events).len() <= steps_left(state),
        commit_count(actions(state, events)) <= 1,
        steps_left(state) <= 1 ==> commit_count(actions(state, events)) == 0,
    decreases events.len(),
{
    if events.len() > 0 {
        let rest = events.drop_first();
        match next(state, events[0]) {
            Some((following, action)) => {
                lemma_commit_at_most_once(following, rest);
                lemma_finish_ends_request(state, events[0]);
                lemma_commit_count_cons(action, actions(following, rest));
            },
            None => {
                lemma_commit_at_most_once(state, rest);
            },
        }
    }
}

/// The order of the checks in `decide_admission`: an address that parses
/// and bytes that decode to scalars of the right length are all that a
/// request needs before its signer is looked at.
pub proof fn lemma_admission_order(
    did: Seq<char>,
    name: Seq<char>,
    v: u64,
    address: Result<Seq<u8>, Seq<char>>,
    r: Result<Seq<u8>, Seq<char>>,
    s: Result<Seq<u8>, Seq<char>>,
    value: Result<Seq<u8>, Seq<char>>,
    signer: Option<Seq<u8>>,
)
    ensures
        decide_admission(did, name, v, address, r, s, value, signer) is Ok <==> (address is Ok
            && r is Ok && s is Ok && value is Ok && r->Ok_0.len() == 32 && s->Ok_0.len() == 32
            && signer is Some),
        decide_admission(did, name, v, address, r, s, value, signer) is Err ==> ({
            let kind = kind_of_failure(
                decide_admission(did, name, v, address, r, s, value, signer)->Err_0,
            );
            &&& kind == ErrorKind::BadAddress <==> address is Err
            &&& kind == ErrorKind::SignatureMismatch <==> (address is Ok && r is Ok && s is Ok
                && value is Ok && r->Ok_0.len() == 32 && s->Ok_0.len() == 32)
            &&& kind == ErrorKind::BadAddress || kind == ErrorKind::ParseBytes || kind
                == ErrorKind::SignatureMismatch
        }),
{
}

} // verus!
