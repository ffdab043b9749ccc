//! The coordinator of a multipart upload.
//!
//! The coordinator decides; the caller acts. It starts by asking for a
//! session to be opened, and is then told what happened, one event at a
//! time; for each event it says what to do next. It waits for every part
//! that was dispatched, lists the parts in ascending order when all have
//! arrived, and reports the first failure otherwise.

use crate::chunk::get_multiupload_chunk_info;
use crate::chunk::lemma_chunk_count_within_limit;
use crate::chunk::lemma_layout_covers_file;
use crate::chunk::planned_chunk_count;
use crate::chunk::planned_chunk_size;
use crate::chunk::planned_layout;
use crate::chunk::MultiUploadChunkInfo;
use crate::chunk::PartRange;
use crate::chunk::DEFAULT_CHUNK_SIZE;
use crate::chunk::MAX_CHUNK_COUNT;
use crate::error::TransferError;
use crate::error::TransferErrorView;
use crate::params::text_of;
use crate::params::S3Params;
use vstd::pervasive::unreached;
use vstd::prelude::*;
use vstd::string::StringExecFns;

verus! {

/// Metadata key under which the security token is stored with the object.
pub const SECURITY_TOKEN_METADATA_KEY: &'static str = "token";

/// Where an upload stands.
#[derive(Debug, Clone, Copy, PartialEq, Eq, Structural)]
pub enum UploadPhase {
    /// A session has been asked for.
    Idle,
    /// The session is open; the size of the file has been asked for.
    SessionInitiated,
    /// The parts have been dispatched and not all have come back.
    PartsInFlight,
    /// All parts have arrived; completion has been asked for.
    Completing,
    /// The object is complete.
    Completed,
    /// The upload has failed.
    Aborted,
}

/// A part that the backend has taken: its number and the entity tag that
/// the backend gave for it.
#[derive(Debug, Clone, PartialEq, Eq)]
pub struct PartResult {
    pub part_number: i32,
    pub entity_tag: String,
}

/// Mathematical value of a `PartResult`.
pub struct PartResultView {
    pub part_number: int,
    pub entity_tag: Seq<char>,
}

impl View for PartResult {
    type V = PartResultView;

    open spec fn view(&self) -> PartResultView {
        PartResultView { part_number: self.part_number as int, entity_tag: self.entity_tag@ }
    }
}

/// The values of a list of part results.
pub open spec fn results_of(parts: Seq<PartResult>) -> Seq<PartResultView> {
    Seq::new(parts.len(), |i: int| parts[i]@)
}

/// What is known of one part.
#[derive(Debug)]
enum PartSlot {
    Pending,
    Uploaded { entity_tag: String },
    Failed,
}

/// Mathematical value of what is known of one part.
pub enum SlotView {
    /// Dispatched, and not back yet.
    Pending,
    /// Taken by the backend, with this entity tag.
    Uploaded { entity_tag: Seq<char> },
    /// Given up.
    Failed,
}

impl View for PartSlot {
    type V = SlotView;

    closed spec fn view(&self) -> SlotView {
        match *self {
            PartSlot::Pending => SlotView::Pending,
            PartSlot::Uploaded { entity_tag } => SlotView::Uploaded { entity_tag: entity_tag@ },
            PartSlot::Failed => SlotView::Failed,
        }
    }
}

spec fn slots_of(slots: Seq<PartSlot>) -> Seq<SlotView> {
    Seq::new(slots.len(), |i: int| slots[i]@)
}

/// How many of the parts are not back yet.
pub open spec fn pending_in(slots: Seq<SlotView>) -> nat
    decreases slots.len(),
{
    if slots.len() == 0 {
        0
    } else {
        pending_in(slots.drop_last()) + if slots.last() is Pending {
            1nat
        } else {
            0nat
        }
    }
}

/// The completion manifest: one entry for each part, in ascending order,
/// numbered from one, with the entity tag that the part was given.
pub open spec fn manifest_of(slots: Seq<SlotView>) -> Seq<PartResultView> {
    Seq::new(
        slots.len(),
        |i: int|
            PartResultView {
                part_number: i + 1,
                entity_tag: match slots[i] {
                    SlotView::Uploaded { entity_tag } => entity_tag,
                    _ => Seq::empty(),
                },
            },
    )
}

/// The entity tag kept for a part: the one that the backend gave, or the
/// empty text where it gave none.
pub open spec fn tag_or_empty(entity_tag: Option<Seq<char>>) -> Seq<char> {
    match entity_tag {
        Some(entity_tag) => entity_tag,
        None => Seq::empty(),
    }
}

/// The layout that an upload uses for a file of the given size.
pub open spec fn upload_layout(file_size: nat) -> MultiUploadChunkInfo {
    planned_layout(file_size, DEFAULT_CHUNK_SIZE as nat, MAX_CHUNK_COUNT as nat)
}

/// What the caller reports to the coordinator.
#[derive(Debug, Clone, PartialEq, Eq)]
pub enum UploadEvent {
    /// The backend answered the request for a session, with or without a
    /// session identifier.
    SessionOpened { upload_id: Option<String> },
    /// The request for a session failed.
    SessionRefused { cause: String },
    /// The local file was found to hold `file_size` bytes.
    FileMeasured { file_size: u64 },
    /// The size of the local file could not be read.
    FileUnreadable { cause: String },
    /// The backend took a part, and gave it an entity tag or none.
    PartUploaded { part_number: i32, entity_tag: Option<String> },
    /// A part could not be uploaded.
    PartFailed { part_number: i32, cause: String },
    /// The backend completed the session.
    Finalized,
    /// The backend refused to complete the session.
    FinalizeRefused { cause: String },
}

/// Mathematical value of an `UploadEvent`.
pub enum UploadEventView {
    SessionOpened { upload_id: Option<Seq<char>> },
    SessionRefused { cause: Seq<char> },
    FileMeasured { file_size: nat },
    FileUnreadable { cause: Seq<char> },
    PartUploaded { part_number: int, entity_tag: Option<Seq<char>> },
    PartFailed { part_number: int, cause: Seq<char> },
    Finalized,
    FinalizeRefused { cause: Seq<char> },
}

impl View for UploadEvent {
    type V = UploadEventView;

    open spec fn view(&self) -> UploadEventView {
        match *self {
            UploadEvent::SessionOpened { upload_id } => UploadEventView::SessionOpened {
                upload_id: text_of(upload_id),
            },
            UploadEvent::SessionRefused { cause } => UploadEventView::SessionRefused {
                cause: cause@,
            },
            UploadEvent::FileMeasured { file_size } => UploadEventView::FileMeasured {
                file_size: file_size as nat,
            },
            UploadEvent::FileUnreadable { cause } => UploadEventView::FileUnreadable {
                cause: cause@,
            },
            UploadEvent::PartUploaded { part_number, entity_tag } => UploadEventView::PartUploaded {
                part_number: part_number as int,
                entity_tag: text_of(entity_tag),
            },
            UploadEvent::PartFailed { part_number, cause } => UploadEventView::PartFailed {
                part_number: part_number as int,
                cause: cause@,
            },
            UploadEvent::Finalized => UploadEventView::Finalized,
            UploadEvent::FinalizeRefused { cause } => UploadEventView::FinalizeRefused {
                cause: cause@,
            },
        }
    }
}

/// What the coordinator asks the caller to do.
#[derive(Debug, PartialEq, Eq)]
pub enum UploadAction {
    /// Open a multipart session for the object, with the security token
    /// attached to the object as metadata under
    /// `SECURITY_TOKEN_METADATA_KEY`.
    InitiateSession { bucket: String, key: String, security_token: String },
    /// Read the size of the local file.
    MeasureFile { path: String },
    /// Upload every one of these parts to the session, each from its own
    /// byte range of the file, and report each as it ends.
    DispatchParts { upload_id: String, parts: Vec<PartRange> },
    /// Go on waiting for the parts that are not back yet.
    AwaitParts,
    /// Complete the session with these parts, in this order.
    Finalize { upload_id: String, manifest: Vec<PartResult> },
    /// The upload has ended: with the number of bytes sent, or with the
    /// error that stopped it.
    Finish { outcome: Result<u64, TransferError> },
    /// The event does not belong to the phase the upload is in; nothing
    /// has changed.
    Ignore,
}

/// Mathematical value of an `UploadAction`.
pub enum UploadActionView {
    InitiateSession { bucket: Seq<char>, key: Seq<char>, security_token: Seq<char> },
    MeasureFile { path: Seq<char> },
    DispatchParts { upload_id: Seq<char>, parts: Seq<PartRange> },
    AwaitParts,
    Finalize { upload_id: Seq<char>, manifest: Seq<PartResultView> },
    Finish { outcome: Result<nat, TransferErrorView> },
    Ignore,
}

impl View for UploadAction {
    type V = UploadActionView;

    open spec fn view(&self) -> UploadActionView {
        match *self {
            UploadAction::InitiateSession {
                bucket,
                key,
                security_token,
            } => UploadActionView::InitiateSession {
                bucket: bucket@,
                key: key@,
                security_token: security_token@,
            },
            UploadAction::MeasureFile { path } => UploadActionView::MeasureFile { path: path@ },
            UploadAction::DispatchParts { upload_id, parts } => UploadActionView::DispatchParts {
                upload_id: upload_id@,
                parts: parts@,
            },
            UploadAction::AwaitParts => UploadActionView::AwaitParts,
            UploadAction::Finalize { upload_id, manifest } => UploadActionView::Finalize {
                upload_id: upload_id@,
                manifest: results_of(manifest@),
            },
            UploadAction::Finish { outcome } => UploadActionView::Finish {
                outcome: match outcome {
                    Ok(bytes) => Ok(bytes as nat),
                    Err(error) => Err(error@),
                },
            },
            UploadAction::Ignore => UploadActionView::Ignore,
        }
    }
}

/// Mathematical value of an `UploadCoordinator`.
pub struct CoordinatorState {
    pub phase: UploadPhase,
    /// Path of the file that is uploaded.
    pub file_path: Seq<char>,
    /// Identifier of the session, once it is open.
    pub upload_id: Option<Seq<char>>,
    /// Size of the file, once it is known.
    pub file_size: nat,
    /// What is known of each part, in ascending order of part number; empty
    /// until the parts are dispatched.
    pub slots: Seq<SlotView>,
    /// The first failure among the parts, while the others are waited for.
    pub failure: Option<TransferErrorView>,
}

impl CoordinatorState {
    /// What holds of every state that an upload can reach.
    pub open spec fn well_formed(self) -> bool {
        match self.phase {
            UploadPhase::Idle => self.upload_id.is_none() && self.slots.len() == 0
                && self.failure.is_none(),
            UploadPhase::SessionInitiated => self.upload_id.is_some() && self.slots.len() == 0
                && self.failure.is_none(),
            UploadPhase::PartsInFlight => {
                &&& self.upload_id.is_some()
                &&& self.file_size > 0
                &&& self.slots.len() == upload_layout(self.file_size).chunk_count
                &&& pending_in(self.slots) > 0
                &&& self.failure.is_none() ==> forall|i: int|
                    0 <= i < self.slots.len() ==> !(#[trigger] self.slots[i] is Failed)
            },
            UploadPhase::Completing => {
                &&& self.upload_id.is_some()
                &&& self.file_size > 0
                &&& self.slots.len() == upload_layout(self.file_size).chunk_count
                &&& self.failure.is_none()
                &&& forall|i: int|
                    0 <= i < self.slots.len() ==> #[trigger] self.slots[i] is Uploaded
            },
            UploadPhase::Completed => true,
            UploadPhase::Aborted => true,
        }
    }
}

/// The state in which an upload starts.
pub open spec fn initial_state(file_path: Seq<char>) -> CoordinatorState {
    CoordinatorState {
        phase: UploadPhase::Idle,
        file_path,
        upload_id: None,
        file_size: 0,
        slots: Seq::empty(),
        failure: None,
    }
}

/// The end of an upload that failed: the error is handed out and nothing is
/// kept of it.
pub open spec fn aborted(state: CoordinatorState, error: TransferErrorView) -> (
    CoordinatorState,
    UploadActionView,
) {
    (
        CoordinatorState { phase: UploadPhase::Aborted, failure: None, ..state },
        UploadActionView::Finish { outcome: Err(error) },
    )
}

/// What happens when the file is found to hold `file_size` bytes: an empty
/// file ends the upload, any other is laid out and its parts dispatched.
pub open spec fn measured(state: CoordinatorState, file_size: nat) -> (
    CoordinatorState,
    UploadActionView,
) {
    if file_size == 0 {
        aborted(state, TransferErrorView::EmptyFile)
    } else {
        let layout = upload_layout(file_size);
        (
            CoordinatorState {
                phase: UploadPhase::PartsInFlight,
                file_size,
                slots: Seq::new(layout.chunk_count as nat, |i: int| SlotView::Pending),
                ..state
            },
            UploadActionView::DispatchParts {
                upload_id: state.upload_id.unwrap(),
                parts: layout.all_parts(),
            },
        )
    }
}

/// What happens when a part comes back, taken or given up. A part that is
/// not awaited changes nothing. Otherwise its slot is filled and the first
/// failure is kept. While parts are still out, the upload waits. When the
/// last one is back, the upload ends with the first failure if there was
/// one, and asks for completion with the whole manifest if there was none.
pub open spec fn settled(
    state: CoordinatorState,
    part_number: int,
    slot: SlotView,
    error: Option<TransferErrorView>,
) -> (CoordinatorState, UploadActionView) {
    if !(1 <= part_number <= state.slots.len() && state.slots[part_number - 1] is Pending) {
        (state, UploadActionView::Ignore)
    } else {
        let slots = state.slots.update(part_number - 1, slot);
        let failure = if state.failure.is_some() {
            state.failure
        } else {
            error
        };
        if pending_in(slots) > 0 {
            (CoordinatorState { slots, failure, ..state }, UploadActionView::AwaitParts)
        } else {
            match failure {
                Some(first) => aborted(CoordinatorState { slots, ..state }, first),
                None => (
                    CoordinatorState { phase: UploadPhase::Completing, slots, failure, ..state },
                    UploadActionView::Finalize {
                        upload_id: state.upload_id.unwrap(),
                        manifest: manifest_of(slots),
                    },
                ),
            }
        }
    }
}

/// The transition of an upload: the state after an event, and what the
/// caller is asked to do. An event that does not belong to the phase
/// changes nothing.
pub open spec fn upload_step(state: CoordinatorState, event: UploadEventView) -> (
    CoordinatorState,
    UploadActionView,
) {
    match state.phase {
        UploadPhase::Idle => match event {
            UploadEventView::SessionOpened { upload_id: Some(upload_id) } => (
                CoordinatorState {
                    phase: UploadPhase::SessionInitiated,
                    upload_id: Some(upload_id),
                    ..state
                },
                UploadActionView::MeasureFile { path: state.file_path },
            ),
            UploadEventView::SessionOpened { upload_id: None } => aborted(
                state,
                TransferErrorView::SessionInit { cause: "upload_id is none"@ },
            ),
            UploadEventView::SessionRefused { cause } => aborted(
                state,
                TransferErrorView::SessionInit { cause },
            ),
            _ => (state, UploadActionView::Ignore),
        },
        UploadPhase::SessionInitiated => match event {
            UploadEventView::FileMeasured { file_size } => measured(state, file_size),
            UploadEventView::FileUnreadable { cause } => aborted(
                state,
                TransferErrorView::LocalIo { cause },
            ),
            _ => (state, UploadActionView::Ignore),
        },
        UploadPhase::PartsInFlight => match event {
            UploadEventView::PartUploaded { part_number, entity_tag } => settled(
                state,
                part_number,
                SlotView::Uploaded { entity_tag: tag_or_empty(entity_tag) },
                None,
            ),
            UploadEventView::PartFailed { part_number, cause } => settled(
                state,
                part_number,
                SlotView::Failed,
                Some(TransferErrorView::PartTransfer { part_number: part_number as i32, cause }),
            ),
            _ => (state, UploadActionView::Ignore),
        },
        UploadPhase::Completing => match event {
            UploadEventView::Finalized => (
                CoordinatorState { phase: UploadPhase::Completed, ..state },
                UploadActionView::Finish { outcome: Ok(state.file_size) },
            ),
            UploadEventView::FinalizeRefused { cause } => aborted(
                state,
                TransferErrorView::Completion { cause },
            ),
            _ => (state, UploadActionView::Ignore),
        },
        UploadPhase::Completed => (state, UploadActionView::Ignore),
        UploadPhase::Aborted => (state, UploadActionView::Ignore),
    }
}

/// Filling a slot that was pending with one that is not leaves one part
/// fewer pending.
pub proof fn lemma_settling_leaves_one_fewer(slots: Seq<SlotView>, index: int, slot: SlotView)
    requires
        0 <= index < slots.len(),
        slots[index] is Pending,
        !(slot is Pending),
    ensures
        pending_in(slots.update(index, slot)) + 1 == pending_in(slots),
    decreases slots.len(),
{
    let updated = slots.update(index, slot);
    if index == slots.len() - 1 {
        assert(updated.drop_last() =~= slots.drop_last());
    } else {
        assert(updated.drop_last() =~= slots.drop_last().update(index, slot));
        lemma_settling_leaves_one_fewer(slots.drop_last(), index, slot);
    }
}

/// Where no part is pending, none of the slots is.
pub proof fn lemma_none_pending(slots: Seq<SlotView>)
    requires
        pending_in(slots) == 0,
    ensures
        forall|i: int| 0 <= i < slots.len() ==> !(#[trigger] slots[i] is Pending),
    decreases slots.len(),
{
    if slots.len() > 0 {
        lemma_none_pending(slots.drop_last());
        assert forall|i: int| 0 <= i < slots.len() implies !(#[trigger] slots[i] is Pending) by {
            if i < slots.len() - 1 {
                assert(slots[i] == slots.drop_last()[i]);
            }
        }
    }
}

/// Where every slot is pending, as many parts are pending as there are
/// slots.
pub proof fn lemma_all_pending(slots: Seq<SlotView>)
    requires
        forall|i: int| 0 <= i < slots.len() ==> #[trigger] slots[i] is Pending,
    ensures
        pending_in(slots) == slots.len(),
    decreases slots.len(),
{
    if slots.len() > 0 {
        assert forall|i: int| 0 <= i < slots.drop_last().len() implies #[trigger] slots.drop_last()[i] is Pending by {
            assert(slots.drop_last()[i] == slots[i]);
        }
        lemma_all_pending(slots.drop_last());
    }
}

/// An upload never has more parts than the backend accepts, and its layout
/// holds exactly the file.
pub proof fn lemma_upload_layout(file_size: nat)
    requires
        0 < file_size <= u64::MAX,
    ensures
        upload_layout(file_size).covers(file_size),
        1 <= upload_layout(file_size).chunk_count <= MAX_CHUNK_COUNT,
        upload_layout(file_size).chunk_count == planned_chunk_count(
            file_size,
            planned_chunk_size(file_size, DEFAULT_CHUNK_SIZE as nat, MAX_CHUNK_COUNT as nat),
        ),
{
    let d = DEFAULT_CHUNK_SIZE as nat;
    let m = MAX_CHUNK_COUNT as nat;
    crate::chunk::lemma_chunk_size_defined(file_size, d, m);
    lemma_layout_covers_file(file_size, d, m);
    lemma_chunk_count_within_limit(file_size, d, m);
    let chunk_size = planned_chunk_size(file_size, d, m);
    assert(chunk_size <= u64::MAX) by {
        if file_size > d * m {
            vstd::arithmetic::div_mod::lemma_div_is_ordered_by_denominator(
                file_size as int,
                1,
                crate::chunk::growth_divisor(m) as int,
            );
        }
    }
}

/// The invariant of an upload: every state that a step reaches from a
/// well-formed state is well formed.
pub proof fn lemma_step_keeps_well_formed(state: CoordinatorState, event: UploadEventView)
    requires
        state.well_formed(),
        event matches UploadEventView::FileMeasured { file_size } ==> file_size <= u64::MAX,
    ensures
        upload_step(state, event).0.well_formed(),
{
    match state.phase {
        UploadPhase::SessionInitiated => {
            if let UploadEventView::FileMeasured { file_size } = event {
                if file_size > 0 {
                    lemma_upload_layout(file_size);
                    let slots = upload_step(state, event).0.slots;
                    lemma_all_pending(slots);
                }
            }
        },
        UploadPhase::PartsInFlight => {
            match event {
                UploadEventView::PartUploaded { part_number, entity_tag } => {
                    lemma_settled_keeps_well_formed(
                        state,
                        part_number,
                        SlotView::Uploaded { entity_tag: tag_or_empty(entity_tag) },
                        None,
                    );
                },
                UploadEventView::PartFailed { part_number, cause } => {
                    lemma_settled_keeps_well_formed(
                        state,
                        part_number,
                        SlotView::Failed,
                        Some(
                            TransferErrorView::PartTransfer {
                                part_number: part_number as i32,
                                cause,
                            },
                        ),
                    );
                },
                _ => {},
            }
        },
        _ => {},
    }
}

proof fn lemma_settled_keeps_well_formed(
    state: CoordinatorState,
    part_number: int,
    slot: SlotView,
    error: Option<TransferErrorView>,
)
    requires
        state.well_formed(),
        state.phase == UploadPhase::PartsInFlight,
        !(slot is Pending),
        slot is Failed ==> error.is_some(),
    ensures
        settled(state, part_number, slot, error).0.well_formed(),
{
    if 1 <= part_number <= state.slots.len() && state.slots[part_number - 1] is Pending {
        let slots = state.slots.update(part_number - 1, slot);
        let next = settled(state, part_number, slot, error).0;
        if pending_in(slots) == 0 {
            lemma_none_pending(slots);
            if next.phase == UploadPhase::Completing {
                assert forall|i: int| 0 <= i < slots.len() implies #[trigger] slots[i] is Uploaded by {
                    if i != part_number - 1 {
                        assert(slots[i] == state.slots[i]);
                        assert(!(state.slots[i] is Failed));
                    }
                }
            }
        } else {
            assert forall|i: int|
                next.failure.is_none() && 0 <= i < slots.len() implies !(#[trigger] slots[i] is Failed) by {
                if i != part_number - 1 {
                    assert(slots[i] == state.slots[i]);
                }
            }
        }
    }
}

/// The manifest handed to completion lists every part of the file exactly
/// once: it has as many entries as the file has parts, and its entries are
/// numbered one, two, three and so on, in that order.
pub proof fn lemma_manifest_lists_every_part_once(state: CoordinatorState, event: UploadEventView)
    requires
        state.well_formed(),
    ensures
        upload_step(state, event).1 matches UploadActionView::Finalize { upload_id, manifest } ==> {
            &&& manifest.len() == upload_layout(state.file_size).chunk_count
            &&& forall|i: int|
                0 <= i < manifest.len() ==> (#[trigger] manifest[i]).part_number == i + 1
            &&& forall|i: int|
                0 <= i < manifest.len() ==> upload_step(state, event).0.slots[i]
                    == (SlotView::Uploaded { entity_tag: (#[trigger] manifest[i]).entity_tag })
        },
{
    if let UploadActionView::Finalize { upload_id, manifest } = upload_step(state, event).1 {
        assert(state.phase == UploadPhase::PartsInFlight);
        match event {
            UploadEventView::PartUploaded { part_number, entity_tag } => {
                lemma_settled_keeps_well_formed(
                    state,
                    part_number,
                    SlotView::Uploaded { entity_tag: tag_or_empty(entity_tag) },
                    None,
                );
            },
            UploadEventView::PartFailed { part_number, cause } => {
                lemma_settled_keeps_well_formed(
                    state,
                    part_number,
                    SlotView::Failed,
                    Some(
                        TransferErrorView::PartTransfer { part_number: part_number as i32, cause },
                    ),
                );
            },
            _ => {},
        }
        let next = upload_step(state, event).0;
        assert(next.well_formed());
        assert(manifest == manifest_of(next.slots));
        assert forall|i: int| 0 <= i < manifest.len() implies next.slots[i] == (SlotView::Uploaded {
            entity_tag: (#[trigger] manifest[i]).entity_tag,
        }) by {
            assert(next.slots[i] is Uploaded);
        }
    }
}

/// An empty file ends the upload at once, with the error for empty files
/// and without any part being dispatched.
pub proof fn lemma_empty_file_is_rejected(state: CoordinatorState)
    requires
        state.phase == UploadPhase::SessionInitiated,
    ensures
        upload_step(state, UploadEventView::FileMeasured { file_size: 0 }) == aborted(
            state,
            TransferErrorView::EmptyFile,
        ),
        upload_step(state, UploadEventView::FileMeasured { file_size: 0 }).0.phase
            == UploadPhase::Aborted,
{
}

/// An upload that is completed reports exactly the size of the file.
pub proof fn lemma_completed_upload_reports_file_size(state: CoordinatorState)
    requires
        state.phase == UploadPhase::Completing,
    ensures
        upload_step(state, UploadEventView::Finalized).1 == (UploadActionView::Finish {
            outcome: Ok(state.file_size),
        }),
        upload_step(state, UploadEventView::Finalized).0.phase == UploadPhase::Completed,
{
}

/// An upload ends once: the step that ends it leaves it completed or
/// aborted, and in either of these phases every event is ignored and
/// changes nothing.
pub proof fn lemma_upload_ends_once(state: CoordinatorState, event: UploadEventView)
    ensures
        upload_step(state, event).1 is Finish ==> state.phase != UploadPhase::Completed
            && state.phase != UploadPhase::Aborted && (upload_step(state, event).0.phase
            == UploadPhase::Completed || upload_step(state, event).0.phase
            == UploadPhase::Aborted),
        state.phase == UploadPhase::Completed || state.phase == UploadPhase::Aborted
            ==> upload_step(state, event) == (state, UploadActionView::Ignore),
        upload_step(state, event).1 matches UploadActionView::Finish { outcome: Ok(bytes) }
            ==> bytes == state.file_size && upload_step(state, event).0.phase
            == UploadPhase::Completed,
{
}

/// Coordinator of one multipart upload.
#[derive(Debug)]
pub struct UploadCoordinator {
    phase: UploadPhase,
    file_path: String,
    upload_id: Option<String>,
    file_size: u64,
    slots: Vec<PartSlot>,
    pending: usize,
    failure: Option<TransferError>,
}

/// The value of an error that may be absent.
pub open spec fn error_of(error: Option<TransferError>) -> Option<TransferErrorView> {
    match error {
        Some(error) => Some(error@),
        None => None,
    }
}

impl View for UploadCoordinator {
    type V = CoordinatorState;

    closed spec fn view(&self) -> CoordinatorState {
        CoordinatorState {
            phase: self.phase,
            file_path: self.file_path@,
            upload_id: text_of(self.upload_id),
            file_size: self.file_size as nat,
            slots: slots_of(self.slots@),
            failure: error_of(self.failure),
        }
    }
}

impl UploadCoordinator {
    #[verifier::type_invariant]
    spec fn inv(&self) -> bool {
        &&& self@.well_formed()
        &&& self.pending == pending_in(self@.slots)
    }

    /// Starts an upload of the file that the request names. The caller is
    /// asked to open a session for the request's bucket and object key, with
    /// its security token as metadata.
    pub fn begin(params: &S3Params) -> (started: (UploadCoordinator, UploadAction))
        ensures
            started.0@ == initial_state(params@.file_path),
            started.0@.well_formed(),
            started.1@ == (UploadActionView::InitiateSession {
                bucket: params@.bucket,
                key: params@.object,
                security_token: params@.security_token,
            }),
    {
        let coordinator = UploadCoordinator {
            phase: UploadPhase::Idle,
            file_path: params.file_path.clone(),
            upload_id: None,
            file_size: 0,
            slots: Vec::new(),
            pending: 0,
            failure: None,
        };
        assert(coordinator@.slots =~= Seq::empty());
        (
            coordinator,
            UploadAction::InitiateSession {
                bucket: params.bucket.clone(),
                key: params.object.clone(),
                security_token: params.security_token.clone(),
            },
        )
    }

    /// The phase the upload is in.
    pub fn phase(&self) -> (phase: UploadPhase)
        ensures
            phase == self@.phase,
    {
        self.phase
    }

    /// Whether the upload has ended, well or badly.
    pub fn is_finished(&self) -> (finished: bool)
        ensures
            finished == (self@.phase == UploadPhase::Completed || self@.phase
                == UploadPhase::Aborted),
    {
        self.phase == UploadPhase::Completed || self.phase == UploadPhase::Aborted
    }

    /// The size of the file, once it is known; zero before.
    pub fn file_size(&self) -> (file_size: u64)
        ensures
            file_size == self@.file_size,
    {
        self.file_size
    }

    /// The number of parts that are not back yet.
    pub fn pending_parts(&self) -> (pending: usize)
        ensures
            pending == pending_in(self@.slots),
    {
        proof {
            use_type_invariant(self);
        }
        self.pending
    }

    /// Takes one event and says what to do next, as `upload_step` lays down.
    pub fn step(self, event: UploadEvent) -> (next: (UploadCoordinator, UploadAction))
        ensures
            (next.0@, next.1@) == upload_step(self@, event@),
            self@.well_formed(),
            next.0@.well_formed(),
    {
        proof {
            use_type_invariant(&self);
        }
        match self.phase {
            UploadPhase::Idle => match event {
                UploadEvent::SessionOpened { upload_id: Some(upload_id) } => {
                    let path = self.file_path.clone();
                    (
                        UploadCoordinator {
                            phase: UploadPhase::SessionInitiated,
                            upload_id: Some(upload_id),
                            ..self
                        },
                        UploadAction::MeasureFile { path },
                    )
                },
                UploadEvent::SessionOpened { upload_id: None } => self.abort(
                    TransferError::SessionInit { cause: String::from_str("upload_id is none") },
                ),
                UploadEvent::SessionRefused { cause } => self.abort(
                    TransferError::SessionInit { cause },
                ),
                _ => (self, UploadAction::Ignore),
            },
            UploadPhase::SessionInitiated => match event {
                UploadEvent::FileMeasured { file_size } => self.on_file_measured(file_size),
                UploadEvent::FileUnreadable { cause } => self.abort(
                    TransferError::LocalIo { cause },
                ),
                _ => (self, UploadAction::Ignore),
            },
            UploadPhase::PartsInFlight => match event {
                UploadEvent::PartUploaded { part_number, entity_tag } => {
                    let entity_tag = match entity_tag {
                        Some(entity_tag) => entity_tag,
                        None => String::new(),
                    };
                    self.settle(part_number, PartSlot::Uploaded { entity_tag }, None)
                },
                UploadEvent::PartFailed { part_number, cause } => self.settle(
                    part_number,
                    PartSlot::Failed,
                    Some(TransferError::PartTransfer { part_number, cause }),
                ),
                _ => (self, UploadAction::Ignore),
            },
            UploadPhase::Completing => match event {
                UploadEvent::Finalized => {
                    let file_size = self.file_size;
                    (
                        UploadCoordinator { phase: UploadPhase::Completed, ..self },
                        UploadAction::Finish { outcome: Ok(file_size) },
                    )
                },
                UploadEvent::FinalizeRefused { cause } => self.abort(
                    TransferError::Completion { cause },
                ),
                _ => (self, UploadAction::Ignore),
            },
            UploadPhase::Completed => (self, UploadAction::Ignore),
            UploadPhase::Aborted => (self, UploadAction::Ignore),
        }
    }

    /// Ends the upload with `error`.
    fn abort(self, error: TransferError) -> (next: (UploadCoordinator, UploadAction))
        ensures
            (next.0@, next.1@) == aborted(self@, error@),
    {
        proof {
            use_type_invariant(&self);
        }
        (
            UploadCoordinator { phase: UploadPhase::Aborted, failure: None, ..self },
            UploadAction::Finish { outcome: Err(error) },
        )
    }

    /// Lays the file out and dispatches its parts, or ends the upload where
    /// the file is empty.
    fn on_file_measured(self, file_size: u64) -> (next: (UploadCoordinator, UploadAction))
        requires
            self@.phase == UploadPhase::SessionInitiated,
        ensures
            (next.0@, next.1@) == measured(self@, file_size as nat),
            next.0@.well_formed(),
    {
        proof {
            use_type_invariant(&self);
        }
        if file_size == 0 {
            return self.abort(TransferError::EmptyFile);
        }
        proof {
            lemma_upload_layout(file_size as nat);
        }
        let layout = get_multiupload_chunk_info(file_size, DEFAULT_CHUNK_SIZE, MAX_CHUNK_COUNT);
        let parts = layout.parts();
        let mut slots: Vec<PartSlot> = Vec::new();
        let mut pending: usize = 0;
        while pending < parts.len()
            invariant
                pending <= parts.len(),
                slots@.len() == pending,
                forall|i: int| 0 <= i < pending ==> #[trigger] slots@[i]@ is Pending,
            decreases parts.len() - pending,
        {
            slots.push(PartSlot::Pending);
            pending = pending + 1;
        }
        let upload_id = match &self.upload_id {
            Some(upload_id) => upload_id.clone(),
            None => unreached(),
        };
        proof {
            lemma_all_pending(slots_of(slots@));
            assert(slots_of(slots@) =~= Seq::new(
                layout.chunk_count as nat,
                |i: int| SlotView::Pending,
            ));
        }
        (
            UploadCoordinator {
                phase: UploadPhase::PartsInFlight,
                file_size,
                slots,
                pending,
                ..self
            },
            UploadAction::DispatchParts { upload_id, parts },
        )
    }

    /// Fills the slot of a part that has come back.
    fn settle(
        self,
        part_number: i32,
        slot: PartSlot,
        error: Option<TransferError>,
    ) -> (next: (UploadCoordinator, UploadAction))
        requires
            self@.phase == UploadPhase::PartsInFlight,
            !(slot@ is Pending),
            slot@ is Failed ==> error.is_some(),
        ensures
            (next.0@, next.1@) == settled(self@, part_number as int, slot@, error_of(error)),
            next.0@.well_formed(),
    {
        proof {
            use_type_invariant(&self);
            lemma_settled_keeps_well_formed(self@, part_number as int, slot@, error_of(error));
            lemma_upload_layout(self@.file_size);
        }
        if part_number < 1 || part_number as usize > self.slots.len() {
            return (self, UploadAction::Ignore);
        }
        let index = (part_number - 1) as usize;
        let awaited = match &self.slots[index] {
            PartSlot::Pending => true,
            _ => false,
        };
        if !awaited {
            return (self, UploadAction::Ignore);
        }
        let ghost before = self@;
        let UploadCoordinator { phase, file_path, upload_id, file_size, slots, pending, failure } =
            self;
        let mut slots = slots;
        slots.set(index, slot);
        proof {
            lemma_settling_leaves_one_fewer(before.slots, index as int, slot@);
            assert(slots_of(slots@) =~= before.slots.update(index as int, slot@));
        }
        let pending = pending - 1;
        let failure = match failure {
            Some(first) => Some(first),
            None => error,
        };
        if pending > 0 {
            (
                UploadCoordinator { phase, file_path, upload_id, file_size, slots, pending, failure },
                UploadAction::AwaitParts,
            )
        } else {
            match failure {
                Some(first) => (
                    UploadCoordinator {
                        phase: UploadPhase::Aborted,
                        file_path,
                        upload_id,
                        file_size,
                        slots,
                        pending,
                        failure: None,
                    },
                    UploadAction::Finish { outcome: Err(first) },
                ),
                None => {
                    let session = match &upload_id {
                        Some(upload_id) => upload_id.clone(),
                        None => unreached(),
                    };
                    proof {
                        let after = settled(before, part_number as int, slot@, error_of(error)).0;
                        assert(after.slots == slots_of(slots@));
                        assert forall|i: int| 0 <= i < slots@.len() implies #[trigger] slots@[i]@ is Uploaded by {
                            assert(after.slots[i] is Uploaded);
                        }
                    }
                    let manifest = manifest(&slots);
                    (
                        UploadCoordinator {
                            phase: UploadPhase::Completing,
                            file_path,
                            upload_id,
                            file_size,
                            slots,
                            pending,
                            failure: None,
                        },
                        UploadAction::Finalize { upload_id: session, manifest },
                    )
                },
            }
        }
    }
}

/// Lists the parts for completion, in ascending order of part number.
fn manifest(slots: &Vec<PartSlot>) -> (parts: Vec<PartResult>)
    requires
        slots@.len() <= MAX_CHUNK_COUNT,
        forall|i: int| 0 <= i < slots@.len() ==> #[trigger] slots@[i]@ is Uploaded,
    ensures
        results_of(parts@) == manifest_of(slots_of(slots@)),
{
    let mut parts: Vec<PartResult> = Vec::new();
    let mut index: usize = 0;
    while index < slots.len()
        invariant
            index <= slots@.len(),
            slots@.len() <= MAX_CHUNK_COUNT,
            forall|i: int| 0 <= i < slots@.len() ==> #[trigger] slots@[i]@ is Uploaded,
            parts@.len() == index,
            forall|i: int|
                0 <= i < index ==> (#[trigger] parts@[i])@ == manifest_of(slots_of(slots@))[i],
        decreases slots@.len() - index,
    {
        assert(slots@[index as int]@ is Uploaded);
        let entity_tag = match &slots[index] {
            PartSlot::Uploaded { entity_tag } => entity_tag.clone(),
            _ => unreached(),
        };
        parts.push(PartResult { part_number: (index as i32) + 1, entity_tag });
        index = index + 1;
    }
    assert(results_of(parts@) =~= manifest_of(slots_of(slots@)));
    parts
}

} // verus!
