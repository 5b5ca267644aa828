//! The per-item pipeline: a state machine that sequences conversion, the
//! artifact write, the re-read, and the upload for one source item. The
//! caller performs the file and network operations an action asks for and
//! feeds the result back as the next event; `item_step` decides everything
//! else. Each item's run is fully independent of every other's.
use vstd::prelude::*;

use crate::convert::{convert_image, decodes, webp_encodable, webp_of, ConvertFault};
use crate::outcome::{ItemOutcome, Stage};
use crate::paths::{clone_bytes, spec_output_path, spec_upload_key, upload_key};

verus! {

/// Where one item stands in its pipeline.
pub enum ItemState {
    /// Discovered; its source bytes have not been read yet.
    Pending { path: Vec<u8> },
    /// Converted; the artifact is being written next to the source.
    Writing { key: Vec<u8>, artifact_path: Vec<u8> },
    /// Written; the artifact is being re-read for upload.
    Reading { key: Vec<u8> },
    /// Re-read; the put request is in flight.
    Uploading { key: Vec<u8> },
    /// Reported; nothing further happens to this item.
    Done,
}

/// What the caller observed while carrying out the previous action.
pub enum ItemEvent {
    /// The source file was read, or could not be.
    SourceRead { result: Result<Vec<u8>, String> },
    /// The artifact write finished, or failed.
    ArtifactWritten { result: Result<(), String> },
    /// The artifact was re-read for upload, or could not be.
    ArtifactRead { result: Result<Vec<u8>, String> },
    /// The store answered the put request, or the transport failed.
    UploadFinished { result: Result<(), String> },
}

/// What the caller must do next for this item.
#[derive(Debug)]
pub enum ItemAction {
    /// Write `data` to `path`.
    WriteArtifact { path: Vec<u8>, data: Vec<u8> },
    /// Re-read the artifact at `path`.
    ReadArtifact { path: Vec<u8> },
    /// Put `body` to the store under `key`.
    Upload { key: Vec<u8>, body: Vec<u8> },
    /// The item is finished: record and print its outcome.
    Report { outcome: ItemOutcome },
}

/// Which events can answer which states.
pub open spec fn event_fits(s: ItemState, e: ItemEvent) -> bool {
    match (s, e) {
        (ItemState::Pending { .. }, ItemEvent::SourceRead { .. }) => true,
        (ItemState::Writing { .. }, ItemEvent::ArtifactWritten { .. }) => true,
        (ItemState::Reading { .. }, ItemEvent::ArtifactRead { .. }) => true,
        (ItemState::Uploading { .. }, ItemEvent::UploadFinished { .. }) => true,
        _ => false,
    }
}

/// The action reports `stage` as the failure, carrying exactly `cause`.
pub open spec fn reports_failure_with(a: ItemAction, stage: Stage, cause: Seq<char>) -> bool {
    a matches ItemAction::Report { outcome } && outcome matches ItemOutcome::Failure {
        stage: st,
        cause: c,
    } && st == stage && c@ == cause
}

/// The action reports `stage` as the failure (whatever the cause text).
pub open spec fn reports_failure(a: ItemAction, stage: Stage) -> bool {
    a matches ItemAction::Report { outcome } && outcome matches ItemOutcome::Failure {
        stage: st,
        ..
    } && st == stage
}

/// The full transition relation of one item's pipeline. It pins down the
/// next state and the action for every state and fitting event; only the
/// human-readable cause text of a conversion failure is left open, because
/// it comes from the image codecs. `Done` admits no transition at all.
pub open spec fn step_rel(s: ItemState, e: ItemEvent, s2: ItemState, a: ItemAction) -> bool {
    match (s, e) {
        (ItemState::Pending { path }, ItemEvent::SourceRead { result }) => match result {
            Err(cause) => s2 is Done && reports_failure_with(a, Stage::Decode, cause@),
            Ok(bytes) => if !decodes(bytes@) {
                s2 is Done && reports_failure(a, Stage::Decode)
            } else if !webp_encodable(bytes@) {
                s2 is Done && reports_failure(a, Stage::Encode)
            } else {
                &&& s2 matches ItemState::Writing { key, artifact_path } && key@
                    == spec_upload_key(path@) && artifact_path@ == spec_output_path(path@)
                &&& a matches ItemAction::WriteArtifact { path: out, data } && out@
                    == spec_output_path(path@) && data@ == webp_of(bytes@)
            },
        },
        (ItemState::Writing { key, artifact_path }, ItemEvent::ArtifactWritten { result }) => match result {
            Err(cause) => s2 is Done && reports_failure_with(a, Stage::Encode, cause@),
            Ok(_) => {
                &&& s2 matches ItemState::Reading { key: k2 } && k2@ == key@
                &&& a matches ItemAction::ReadArtifact { path } && path@ == artifact_path@
            },
        },
        (ItemState::Reading { key }, ItemEvent::ArtifactRead { result }) => match result {
            Err(cause) => s2 is Done && reports_failure_with(a, Stage::ReadForUpload, cause@),
            Ok(body) => {
                &&& s2 matches ItemState::Uploading { key: k2 } && k2@ == key@
                &&& a matches ItemAction::Upload { key: k3, body: b } && k3@ == key@ && b@
                    == body@
            },
        },
        (ItemState::Uploading { key }, ItemEvent::UploadFinished { result }) => match result {
            Err(cause) => s2 is Done && reports_failure_with(a, Stage::NetworkUpload, cause@),
            Ok(_) => {
                &&& s2 is Done
                &&& a matches ItemAction::Report { outcome } && outcome matches ItemOutcome::Success {
                    key: k2,
                } && k2@ == key@
            },
        },
        _ => false,
    }
}

/// Advances one item by one step: takes what the caller observed, decides
/// the next state, and says what to do next. Conversion happens here, on the
/// source bytes the caller read; everything the caller must do is returned
/// as the action.
pub fn item_step(state: ItemState, event: ItemEvent) -> (r: (ItemState, ItemAction))
    requires
        event_fits(state, event),
    ensures
        step_rel(state, event, r.0, r.1),
{
    match (state, event) {
        (ItemState::Pending { path }, ItemEvent::SourceRead { result }) => match result {
            Err(cause) => (
                ItemState::Done,
                ItemAction::Report {
                    outcome: ItemOutcome::Failure { stage: Stage::Decode, cause },
                },
            ),
            Ok(bytes) => match convert_image(&path, &bytes) {
                Err(ConvertFault::Decode { cause }) => (
                    ItemState::Done,
                    ItemAction::Report {
                        outcome: ItemOutcome::Failure { stage: Stage::Decode, cause },
                    },
                ),
                Err(ConvertFault::Encode { cause }) => (
                    ItemState::Done,
                    ItemAction::Report {
                        outcome: ItemOutcome::Failure { stage: Stage::Encode, cause },
                    },
                ),
                Ok(artifact) => {
                    let key = upload_key(&path);
                    let artifact_path = clone_bytes(&artifact.output_path);
                    (
                        ItemState::Writing { key, artifact_path },
                        ItemAction::WriteArtifact {
                            path: artifact.output_path,
                            data: artifact.data,
                        },
                    )
                },
            },
        },
        (ItemState::Writing { key, artifact_path }, ItemEvent::ArtifactWritten { result }) => match result {
            Err(cause) => (
                ItemState::Done,
                ItemAction::Report {
                    outcome: ItemOutcome::Failure { stage: Stage::Encode, cause },
                },
            ),
            Ok(_) => (ItemState::Reading { key }, ItemAction::ReadArtifact { path: artifact_path }),
        },
        (ItemState::Reading { key }, ItemEvent::ArtifactRead { result }) => match result {
            Err(cause) => (
                ItemState::Done,
                ItemAction::Report {
                    outcome: ItemOutcome::Failure { stage: Stage::ReadForUpload, cause },
                },
            ),
            Ok(body) => {
                let key_copy = clone_bytes(&key);
                (ItemState::Uploading { key }, ItemAction::Upload { key: key_copy, body })
            },
        },
        (ItemState::Uploading { key }, ItemEvent::UploadFinished { result }) => match result {
            Err(cause) => (
                ItemState::Done,
                ItemAction::Report {
                    outcome: ItemOutcome::Failure { stage: Stage::NetworkUpload, cause },
                },
            ),
            Ok(_) => (ItemState::Done, ItemAction::Report {
                outcome: ItemOutcome::Success { key },
            }),
        },
        _ => vstd::pervasive::unreached(),
    }
}

/// One item's run: it starts pending at its source path, and every step is a
/// transition of the pipeline, pairing the event observed with the action
/// decided.
pub open spec fn valid_trace(
    path: Seq<u8>,
    states: Seq<ItemState>,
    events: Seq<ItemEvent>,
    actions: Seq<ItemAction>,
) -> bool {
    &&& states.len() == events.len() + 1
    &&& actions.len() == events.len()
    &&& states[0] matches ItemState::Pending { path: p } && p@ == path
    &&& forall|i: int|
        0 <= i < events.len() ==> #[trigger] step_rel(states[i], events[i], states[i + 1], actions[i])
}

/// A run that has finished: its last state is `Done`.
pub open spec fn complete_trace(
    path: Seq<u8>,
    states: Seq<ItemState>,
    events: Seq<ItemEvent>,
    actions: Seq<ItemAction>,
) -> bool {
    valid_trace(path, states, events, actions) && states.last() is Done
}

/// A step reports an outcome exactly when it finishes the item.
pub proof fn lemma_report_iff_done(s: ItemState, e: ItemEvent, s2: ItemState, a: ItemAction)
    requires
        step_rel(s, e, s2, a),
    ensures
        (a is Report) <==> (s2 is Done),
{
}

/// A finished item takes no further step.
pub proof fn lemma_done_is_terminal(e: ItemEvent, s2: ItemState, a: ItemAction)
    ensures
        !step_rel(ItemState::Done, e, s2, a),
{
}

/// Every item that runs to completion yields exactly one outcome: the last
/// action of its run is a report, and no other action is one — no item is
/// silently dropped and none is double-reported.
pub proof fn lemma_exactly_one_report(
    path: Seq<u8>,
    states: Seq<ItemState>,
    events: Seq<ItemEvent>,
    actions: Seq<ItemAction>,
)
    requires
        complete_trace(path, states, events, actions),
    ensures
        actions.len() >= 1,
        actions.last() is Report,
        forall|i: int| 0 <= i < actions.len() - 1 ==> !(actions[i] is Report),
{
    let n = events.len() as int;
    assert forall|i: int| 0 <= i < n implies !(states[i] is Done) by {
        if states[i] is Done {
            assert(step_rel(states[i], events[i], states[i + 1], actions[i]));
            lemma_done_is_terminal(events[i], states[i + 1], actions[i]);
        }
    }
    assert(n >= 1) by {
        if n == 0 {
            assert(states.last() == states[0]);
        }
    }
    let m = n - 1;
    assert(step_rel(states[m], events[m], states[m + 1], actions[m]));
    lemma_report_iff_done(states[m], events[m], states[m + 1], actions[m]);
    assert forall|i: int| 0 <= i < n - 1 implies !(actions[i] is Report) by {
        assert(step_rel(states[i], events[i], states[i + 1], actions[i]));
        lemma_report_iff_done(states[i], events[i], states[i + 1], actions[i]);
    }
}

/// The source read that opens an item's run fails to decode: either the file
/// could not be read, or its bytes are no parseable image.
pub open spec fn decode_fails(result: Result<Vec<u8>, String>) -> bool {
    match result {
        Ok(bytes) => !decodes(bytes@),
        Err(_) => true,
    }
}

/// An item whose decode fails is never uploaded: its run ends at once with
/// the decode failure reported, and no step of it issues an upload action.
pub proof fn lemma_decode_failure_no_upload(
    path: Seq<u8>,
    states: Seq<ItemState>,
    events: Seq<ItemEvent>,
    actions: Seq<ItemAction>,
)
    requires
        valid_trace(path, states, events, actions),
        events.len() >= 1,
        events[0] matches ItemEvent::SourceRead { result } && decode_fails(result),
    ensures
        events.len() == 1,
        actions[0] is Report,
        forall|i: int| 0 <= i < actions.len() ==> !(actions[i] is Upload),
{
    let z: int = 0;
    assert(step_rel(states[z], events[z], states[z + 1], actions[z]));
    assert(states[1] is Done);
    if events.len() > 1 {
        let j: int = 1;
        assert(step_rel(states[j], events[j], states[j + 1], actions[j]));
        lemma_done_is_terminal(events[j], states[j + 1], actions[j]);
    }
}

/// Every key an item's run carries is the one derived from its own source
/// path.
pub open spec fn key_inv(path: Seq<u8>, s: ItemState) -> bool {
    match s {
        ItemState::Pending { path: p } => p@ == path,
        ItemState::Writing { key, artifact_path } => key@ == spec_upload_key(path)
            && artifact_path@ == spec_output_path(path),
        ItemState::Reading { key } => key@ == spec_upload_key(path),
        ItemState::Uploading { key } => key@ == spec_upload_key(path),
        ItemState::Done => true,
    }
}

/// One step keeps the key invariant, and any key it puts in an upload action
/// or a success report is the item's own derived key.
pub proof fn lemma_step_keeps_key_inv(
    path: Seq<u8>,
    s: ItemState,
    e: ItemEvent,
    s2: ItemState,
    a: ItemAction,
)
    requires
        step_rel(s, e, s2, a),
        key_inv(path, s),
    ensures
        key_inv(path, s2),
        a matches ItemAction::Upload { key, .. } ==> key@ == spec_upload_key(path),
        a matches ItemAction::Report { outcome } ==> (outcome matches ItemOutcome::Success { key }
            ==> key@ == spec_upload_key(path)),
{
}

/// The key invariant holds at every state of a run.
pub proof fn lemma_trace_key_inv(
    path: Seq<u8>,
    states: Seq<ItemState>,
    events: Seq<ItemEvent>,
    actions: Seq<ItemAction>,
    i: int,
)
    requires
        valid_trace(path, states, events, actions),
        0 <= i < states.len(),
    ensures
        key_inv(path, states[i]),
    decreases i,
{
    if i > 0 {
        let j = i - 1;
        lemma_trace_key_inv(path, states, events, actions, j);
        assert(step_rel(states[j], events[j], states[j + 1], actions[j]));
        lemma_step_keeps_key_inv(path, states[j], events[j], states[j + 1], actions[j]);
    }
}

/// Every upload an item's run issues, and every success it reports, carries
/// exactly the key derived from that item's source path: outcomes are
/// traceable to their input.
pub proof fn lemma_keys_traceable(
    path: Seq<u8>,
    states: Seq<ItemState>,
    events: Seq<ItemEvent>,
    actions: Seq<ItemAction>,
    i: int,
)
    requires
        valid_trace(path, states, events, actions),
        0 <= i < actions.len(),
    ensures
        actions[i] matches ItemAction::Upload { key, .. } ==> key@ == spec_upload_key(path),
        actions[i] matches ItemAction::Report { outcome } ==> (outcome matches ItemOutcome::Success {
            key,
        } ==> key@ == spec_upload_key(path)),
{
    lemma_trace_key_inv(path, states, events, actions, i);
    assert(step_rel(states[i], events[i], states[i + 1], actions[i]));
    lemma_step_keeps_key_inv(path, states[i], events[i], states[i + 1], actions[i]);
}

/// The two reads carry the same bytes, or both failed.
pub open spec fn same_read(r1: Result<Vec<u8>, String>, r2: Result<Vec<u8>, String>) -> bool {
    match (r1, r2) {
        (Ok(b1), Ok(b2)) => b1@ == b2@,
        (Err(_), Err(_)) => true,
        _ => false,
    }
}

/// The two operations both succeeded or both failed.
pub open spec fn same_completion(r1: Result<(), String>, r2: Result<(), String>) -> bool {
    match (r1, r2) {
        (Ok(_), Ok(_)) => true,
        (Err(_), Err(_)) => true,
        _ => false,
    }
}

/// The two events observe the same outside behaviour, cause texts aside.
pub open spec fn same_event_class(e1: ItemEvent, e2: ItemEvent) -> bool {
    match (e1, e2) {
        (ItemEvent::SourceRead { result: r1 }, ItemEvent::SourceRead { result: r2 }) => same_read(
            r1,
            r2,
        ),
        (
            ItemEvent::ArtifactWritten { result: r1 },
            ItemEvent::ArtifactWritten { result: r2 },
        ) => same_completion(r1, r2),
        (ItemEvent::ArtifactRead { result: r1 }, ItemEvent::ArtifactRead { result: r2 }) => same_read(
            r1,
            r2,
        ),
        (
            ItemEvent::UploadFinished { result: r1 },
            ItemEvent::UploadFinished { result: r2 },
        ) => same_completion(r1, r2),
        _ => false,
    }
}

/// The two states agree on everything but allocation: same variant, same
/// path or key bytes.
pub open spec fn same_state_class(s1: ItemState, s2: ItemState) -> bool {
    match (s1, s2) {
        (ItemState::Pending { path: p1 }, ItemState::Pending { path: p2 }) => p1@ == p2@,
        (
            ItemState::Writing { key: k1, artifact_path: a1 },
            ItemState::Writing { key: k2, artifact_path: a2 },
        ) => k1@ == k2@ && a1@ == a2@,
        (ItemState::Reading { key: k1 }, ItemState::Reading { key: k2 }) => k1@ == k2@,
        (ItemState::Uploading { key: k1 }, ItemState::Uploading { key: k2 }) => k1@ == k2@,
        (ItemState::Done, ItemState::Done) => true,
        _ => false,
    }
}

/// The two outcomes classify the item alike: both successes under the same
/// key, or both failures at the same stage (cause texts aside).
pub open spec fn same_outcome_class(o1: ItemOutcome, o2: ItemOutcome) -> bool {
    match (o1, o2) {
        (ItemOutcome::Success { key: k1 }, ItemOutcome::Success { key: k2 }) => k1@ == k2@,
        (
            ItemOutcome::Failure { stage: st1, .. },
            ItemOutcome::Failure { stage: st2, .. },
        ) => st1 == st2,
        _ => false,
    }
}

/// The two actions ask for the same work on the same bytes, or report
/// outcomes of the same class.
pub open spec fn same_action_class(a1: ItemAction, a2: ItemAction) -> bool {
    match (a1, a2) {
        (
            ItemAction::WriteArtifact { path: p1, data: d1 },
            ItemAction::WriteArtifact { path: p2, data: d2 },
        ) => p1@ == p2@ && d1@ == d2@,
        (ItemAction::ReadArtifact { path: p1 }, ItemAction::ReadArtifact { path: p2 }) => p1@
            == p2@,
        (
            ItemAction::Upload { key: k1, body: b1 },
            ItemAction::Upload { key: k2, body: b2 },
        ) => k1@ == k2@ && b1@ == b2@,
        (ItemAction::Report { outcome: o1 }, ItemAction::Report { outcome: o2 }) => same_outcome_class(
            o1,
            o2,
        ),
        _ => false,
    }
}

/// One step is deterministic up to failure cause texts: from states of the
/// same class, events observing the same outside behaviour lead to states
/// and actions of the same class.
pub proof fn lemma_step_deterministic(
    s1: ItemState,
    e1: ItemEvent,
    t1: ItemState,
    a1: ItemAction,
    s2: ItemState,
    e2: ItemEvent,
    t2: ItemState,
    a2: ItemAction,
)
    requires
        step_rel(s1, e1, t1, a1),
        step_rel(s2, e2, t2, a2),
        same_state_class(s1, s2),
        same_event_class(e1, e2),
    ensures
        same_state_class(t1, t2),
        same_action_class(a1, a2),
{
}

/// The states of two runs of one item move in lockstep when the runs observe
/// the same outside behaviour.
pub proof fn lemma_trace_states_lockstep(
    path: Seq<u8>,
    states1: Seq<ItemState>,
    events1: Seq<ItemEvent>,
    actions1: Seq<ItemAction>,
    states2: Seq<ItemState>,
    events2: Seq<ItemEvent>,
    actions2: Seq<ItemAction>,
    i: int,
)
    requires
        valid_trace(path, states1, events1, actions1),
        valid_trace(path, states2, events2, actions2),
        events1.len() == events2.len(),
        forall|j: int| 0 <= j < events1.len() ==> same_event_class(events1[j], events2[j]),
        0 <= i < states1.len(),
    ensures
        same_state_class(states1[i], states2[i]),
    decreases i,
{
    if i > 0 {
        let j = i - 1;
        lemma_trace_states_lockstep(
            path,
            states1,
            events1,
            actions1,
            states2,
            events2,
            actions2,
            j,
        );
        assert(step_rel(states1[j], events1[j], states1[j + 1], actions1[j]));
        assert(step_rel(states2[j], events2[j], states2[j + 1], actions2[j]));
        lemma_step_deterministic(
            states1[j],
            events1[j],
            states1[j + 1],
            actions1[j],
            states2[j],
            events2[j],
            states2[j + 1],
            actions2[j],
        );
    }
}

/// Running an item twice is idempotent up to the outside world: two runs
/// over the same source path that observe the same reads and the same
/// completions issue the same actions and classify the item identically.
/// In particular, conversion is deterministic in the source bytes, and no
/// state of any other item can influence the result.
pub proof fn lemma_trace_deterministic(
    path: Seq<u8>,
    states1: Seq<ItemState>,
    events1: Seq<ItemEvent>,
    actions1: Seq<ItemAction>,
    states2: Seq<ItemState>,
    events2: Seq<ItemEvent>,
    actions2: Seq<ItemAction>,
)
    requires
        valid_trace(path, states1, events1, actions1),
        valid_trace(path, states2, events2, actions2),
        events1.len() == events2.len(),
        forall|j: int| 0 <= j < events1.len() ==> same_event_class(events1[j], events2[j]),
    ensures
        forall|i: int| 0 <= i < actions1.len() ==> same_action_class(actions1[i], actions2[i]),
{
    assert forall|i: int| 0 <= i < actions1.len() implies same_action_class(
        actions1[i],
        actions2[i],
    ) by {
        lemma_trace_states_lockstep(
            path,
            states1,
            events1,
            actions1,
            states2,
            events2,
            actions2,
            i,
        );
        assert(step_rel(states1[i], events1[i], states1[i + 1], actions1[i]));
        assert(step_rel(states2[i], events2[i], states2[i + 1], actions2[i]));
        lemma_step_deterministic(
            states1[i],
            events1[i],
            states1[i + 1],
            actions1[i],
            states2[i],
            events2[i],
            states2[i + 1],
            actions2[i],
        );
    }
}

} // verus!
