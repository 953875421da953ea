//! The decisions of the upload handler.
//!
//! The caller receives the request, reads its body part by part and writes
//! the file; this module decides, from what the caller reports, what happens
//! next: whether the body is read at all, which part is the upload, where
//! it is stored, how a finished write is judged and what the client is told.
//! The phase of the handling is handed from one decision to the next, so
//! that at most one part of a request is ever saved.

use vstd::prelude::*;
use vstd::string::*;
use crate::config::Config;
use crate::error::UploadError;
use crate::content_type::{lacks_param, ContentType};
use crate::filename::{
    extension, file_name_of, kept_extension, lemma_stored_name_keeps_extension,
    lemma_stored_path_file_name,
    spec_file_name, spec_join, spec_stored_name, stored_path,
};
use crate::ident::{is_identifier, new_identifier, ID_LENGTH};

verus! {

/// The name of the form field that holds the file.
pub const UPLOAD_FIELD: &'static str = "fileToUpload";

/// The headers of one part of a multipart body.
#[derive(Debug, Clone, PartialEq, Eq)]
pub struct PartHeader {
    /// The form field's name.
    pub name: String,
    /// The name the file had on the client's side, if the part gives one.
    pub file_name: Option<String>,
}

/// What the caller reports while it handles a request.
#[derive(Debug, Clone, PartialEq, Eq)]
pub enum UploadEvent {
    /// A request has arrived, with this content type or with none.
    Request(Option<ContentType>),
    /// The next part of the body, by its headers.
    Part(PartHeader),
    /// The body has no further part.
    End,
    /// The body could not be read or parsed; the text is the reader's.
    Broken(String),
}

/// Where the handling of a request stands.
#[derive(Debug, Clone, Copy, PartialEq, Eq)]
pub enum Phase {
    /// No request has been admitted yet.
    Idle,
    /// The body is being read, and no part of it holds the file so far.
    Scanning,
    /// The upload is decided: a part is being saved, or the request failed.
    Finished,
}

/// What the caller does after an event.
#[derive(Debug, Clone, PartialEq, Eq)]
pub enum Step {
    /// Read the body as multipart data delimited by `boundary`.
    Scan { boundary: String },
    /// Leave the part aside and read on.
    Skip,
    /// Write the part's content to `path` and stop reading.
    Save { path: String },
    /// Give up without writing anything.
    Fail(UploadError),
    /// The event has no place in this phase: read and write nothing.
    Stop,
}

/// How the write of the upload ended.
#[derive(Debug, Clone, PartialEq, Eq)]
pub enum SaveOutcome {
    /// The whole content is in the file at this path.
    File(String),
    /// The whole content was taken, but kept in memory rather than in a
    /// file.
    InMemory,
    /// The write stopped part of the way.
    Partial,
    /// The write failed before anything was done; the text is the error's.
    Failed(String),
    /// The content is in a file whose path is not valid Unicode.
    NonUnicodePath,
}

/// What the client is sent.
#[derive(Debug, Clone, PartialEq, Eq)]
pub enum Response {
    /// A redirect to the link page of the stored file `file`.
    Redirect { file: String },
    /// A failure, with its HTTP status and its text.
    Failure { status: u16, message: String },
}

impl PartHeader {
    /// The part is the one that holds the file.
    pub open spec fn spec_is_upload(&self) -> bool {
        self.name@ == UPLOAD_FIELD@
    }

    /// The client-side file name, as a sequence.
    pub open spec fn spec_file_name(&self) -> Option<Seq<char>> {
        match self.file_name {
            Some(f) => Some(f@),
            None => None,
        }
    }

    /// Decides whether the part is the one that holds the file.
    pub fn is_upload(&self) -> (b: bool)
        ensures
            b == self.spec_is_upload(),
    {
        is_upload_field(self.name.as_str())
    }
}

/// `i` is the first part of `parts` that holds the file.
pub open spec fn is_first_upload(parts: Seq<PartHeader>, i: int) -> bool {
    &&& 0 <= i < parts.len()
    &&& parts[i].spec_is_upload()
    &&& forall|j: int| 0 <= j < i ==> !(#[trigger] parts[j]).spec_is_upload()
}

/// No part of `parts` holds the file.
pub open spec fn no_upload(parts: Seq<PartHeader>) -> bool {
    forall|j: int| 0 <= j < parts.len() ==> !(#[trigger] parts[j]).spec_is_upload()
}

/// The request declares a `multipart/form-data` body. One without a content
/// type does not.
pub open spec fn declares_form_data(content_type: Option<ContentType>) -> bool {
    match content_type {
        Some(c) => c.spec_is_form_data(),
        None => false,
    }
}

/// `path` is where `part` is stored under the identifier `id`.
pub open spec fn stored_at(path: Seq<char>, storage_dir: Seq<char>, id: Seq<char>, part: PartHeader) -> bool {
    path == spec_join(storage_dir, spec_stored_name(id, part.spec_file_name()))
}

/// `step` is the step that follows `event` when a part that holds the file
/// is stored under the identifier `id`: a request is scanned only if its
/// content type is multipart form data with a boundary, a part that holds
/// the file is saved, any other part is skipped, and a body that ends or
/// breaks before such a part fails.
pub open spec fn is_step_for(step: Step, storage_dir: Seq<char>, id: Seq<char>, event: UploadEvent) -> bool {
    match event {
        UploadEvent::Request(content_type) => if !declares_form_data(content_type) {
            step == Step::Fail(UploadError::NotMultipart)
        } else if lacks_param(content_type->0.params@, "boundary"@) {
            step == Step::Fail(UploadError::MissingBoundary)
        } else {
            step is Scan && content_type->0.has_boundary(step->boundary@)
        },
        UploadEvent::Part(part) => if part.spec_is_upload() {
            step is Save && stored_at(step->path@, storage_dir, id, part)
        } else {
            step is Skip
        },
        UploadEvent::End => step == Step::Fail(UploadError::NoFileField),
        UploadEvent::Broken(text) => step == Step::Fail(UploadError::Storage(text)),
    }
}

/// The event is one that the phase waits for: a request when idle, a part
/// or the end of the body while scanning, nothing once finished.
pub open spec fn in_turn(phase: Phase, event: UploadEvent) -> bool {
    match phase {
        Phase::Idle => event is Request,
        Phase::Scanning => !(event is Request),
        Phase::Finished => false,
    }
}

/// The phase that follows `phase` once `step` is decided: scanning goes on
/// until a part is saved or the request fails, and then nothing follows.
pub open spec fn phase_after(phase: Phase, step: Step) -> Phase {
    match step {
        Step::Scan { .. } => Phase::Scanning,
        Step::Skip => phase,
        Step::Stop => phase,
        Step::Save { .. } => Phase::Finished,
        Step::Fail(_) => Phase::Finished,
    }
}

/// `step` and `next` are the decision on `event` in `phase`: an event in
/// turn gets its step, any other is stopped, and the phase moves on with
/// the step.
pub open spec fn is_move_for(
    next: Phase,
    step: Step,
    storage_dir: Seq<char>,
    id: Seq<char>,
    phase: Phase,
    event: UploadEvent,
) -> bool {
    &&& if in_turn(phase, event) {
        is_step_for(step, storage_dir, id, event)
    } else {
        step is Stop
    }
    &&& next == phase_after(phase, step)
}

/// `phases` and `steps` are the decisions on `events`, one after another.
pub open spec fn is_run(
    phases: Seq<Phase>,
    steps: Seq<Step>,
    storage_dir: Seq<char>,
    id: Seq<char>,
    events: Seq<UploadEvent>,
) -> bool {
    &&& phases.len() == events.len() + 1
    &&& steps.len() == events.len()
    &&& forall|i: int|
        0 <= i < events.len() ==> is_move_for(
            phases[i + 1],
            #[trigger] steps[i],
            storage_dir,
            id,
            phases[i],
            events[i],
        )
}

/// `r` is the verdict on a write that ended as `outcome`: only a complete
/// file counts as stored.
pub open spec fn is_verdict_for(r: Result<String, UploadError>, outcome: SaveOutcome) -> bool {
    match outcome {
        SaveOutcome::File(path) => r == Ok::<String, UploadError>(path),
        SaveOutcome::InMemory => r == Err::<String, UploadError>(UploadError::NotAFile),
        SaveOutcome::Partial => r == Err::<String, UploadError>(UploadError::PartialWrite),
        SaveOutcome::Failed(text) => r == Err::<String, UploadError>(UploadError::Storage(text)),
        SaveOutcome::NonUnicodePath => r == Err::<String, UploadError>(
            UploadError::NonUnicodeFileName,
        ),
    }
}

/// `response` reports the failure `e` with its status and its text.
pub open spec fn is_failure_of(response: Response, e: UploadError) -> bool {
    &&& response is Failure
    &&& response->status == e.spec_status()
    &&& response->message@ == e.spec_message()
}

/// `response` answers an upload that ended as `result`: a stored path
/// redirects to the link page of its file name, everything else is reported
/// as a failure.
pub open spec fn is_response_for(response: Response, result: Result<String, UploadError>) -> bool {
    match result {
        Ok(path) => match spec_file_name(path@) {
            Some(name) => response is Redirect && response->file@ == name,
            None => is_failure_of(response, UploadError::MissingFileName),
        },
        Err(e) => is_failure_of(response, e),
    }
}

/// Decides whether `name` is the form field that holds the file.
pub fn is_upload_field(name: &str) -> (b: bool)
    ensures
        b == (name@ == UPLOAD_FIELD@),
{
    String::from_str(name) == String::from_str(UPLOAD_FIELD)
}

/// Finds the part that holds the file: the first one named
/// `fileToUpload`. Later parts of that name are never looked at.
pub fn find_upload_part(parts: &Vec<PartHeader>) -> (found: Option<usize>)
    ensures
        match found {
            Some(i) => is_first_upload(parts@, i as int),
            None => no_upload(parts@),
        },
{
    let mut i: usize = 0;
    while i < parts.len()
        invariant
            i <= parts@.len(),
            forall|j: int| 0 <= j < i ==> !(#[trigger] parts@[j]).spec_is_upload(),
        decreases parts@.len() - i,
    {
        if parts[i].is_upload() {
            return Some(i);
        }
        i += 1;
    }
    None
}

/// The step for an event that is in turn.
fn decide(storage_dir: &str, id: &str, event: &UploadEvent) -> (step: Step)
    ensures
        is_step_for(step, storage_dir@, id@, *event),
{
    match event {
        UploadEvent::Request(None) => Step::Fail(UploadError::NotMultipart),
        UploadEvent::Request(Some(content_type)) => match content_type.boundary() {
            Ok(boundary) => Step::Scan { boundary },
            Err(e) => Step::Fail(e),
        },
        UploadEvent::Part(part) => {
            if part.is_upload() {
                let uploaded: Option<&str> = match &part.file_name {
                    Some(f) => Some(f.as_str()),
                    None => None,
                };
                Step::Save { path: stored_path(storage_dir, id, uploaded) }
            } else {
                Step::Skip
            }
        },
        UploadEvent::End => Step::Fail(UploadError::NoFileField),
        UploadEvent::Broken(text) => Step::Fail(UploadError::Storage(text.clone())),
    }
}

/// Decides whether the phase waits for the event.
pub fn is_in_turn(phase: Phase, event: &UploadEvent) -> (b: bool)
    ensures
        b == in_turn(phase, *event),
{
    match phase {
        Phase::Idle => match event {
            UploadEvent::Request(_) => true,
            _ => false,
        },
        Phase::Scanning => match event {
            UploadEvent::Request(_) => false,
            _ => true,
        },
        Phase::Finished => false,
    }
}

/// The phase that follows once `step` is decided.
pub fn advance(phase: Phase, step: &Step) -> (next: Phase)
    ensures
        next == phase_after(phase, *step),
{
    match step {
        Step::Scan { .. } => Phase::Scanning,
        Step::Skip => phase,
        Step::Stop => phase,
        Step::Save { .. } => Phase::Finished,
        Step::Fail(_) => Phase::Finished,
    }
}

/// Decides what follows `event` in `phase`, given the identifier under
/// which the upload would be stored.
pub fn plan_step(storage_dir: &str, id: &str, phase: Phase, event: &UploadEvent) -> (r: (
    Phase,
    Step,
))
    ensures
        is_move_for(r.0, r.1, storage_dir@, id@, phase, *event),
{
    let step = if is_in_turn(phase, event) {
        decide(storage_dir, id, event)
    } else {
        Step::Stop
    };
    (advance(phase, &step), step)
}

/// Decides what follows `event` in `phase`, drawing a fresh identifier when
/// the event is the part to save. Whatever identifier is drawn, the path to
/// write to lies in the configured storage directory and its file name is
/// the stored name.
pub fn next_step(config: &Config, phase: Phase, event: &UploadEvent) -> (r: (Phase, Step))
    ensures
        exists|id: Seq<char>|
            is_identifier(id) && #[trigger] is_move_for(
                r.0,
                r.1,
                config.spec_storage_path(),
                id,
                phase,
                *event,
            ),
        r.1 is Save ==> spec_file_name(r.1->path@) is Some,
{
    let draws = match event {
        UploadEvent::Part(part) => part.is_upload() && is_in_turn(phase, event),
        _ => false,
    };
    if draws {
        let id = new_identifier();
        let r = plan_step(config.storage_path(), id.as_str(), phase, event);
        proof {
            lemma_stored_path_file_name(
                config.spec_storage_path(),
                id@,
                event->Part_0.spec_file_name(),
            );
        }
        r
    } else {
        // No other decision looks at the identifier.
        let r = plan_step(config.storage_path(), "", phase, event);
        proof {
            let any = Seq::new(ID_LENGTH as nat, |i: int| '_');
            assert(is_move_for(r.0, r.1, config.spec_storage_path(), any, phase, *event));
        }
        r
    }
}

/// Judges a finished write.
pub fn finish_save(outcome: SaveOutcome) -> (r: Result<String, UploadError>)
    ensures
        is_verdict_for(r, outcome),
{
    match outcome {
        SaveOutcome::File(path) => Ok(path),
        SaveOutcome::InMemory => Err(UploadError::NotAFile),
        SaveOutcome::Partial => Err(UploadError::PartialWrite),
        SaveOutcome::Failed(text) => Err(UploadError::Storage(text)),
        SaveOutcome::NonUnicodePath => Err(UploadError::NonUnicodeFileName),
    }
}

/// Reports a failure to the client.
pub fn failure(e: &UploadError) -> (response: Response)
    ensures
        is_failure_of(response, *e),
{
    Response::Failure { status: e.status(), message: e.message() }
}

/// Answers an upload: a redirect to the link page of the stored file, or
/// the failure with its status.
pub fn respond(result: &Result<String, UploadError>) -> (response: Response)
    ensures
        is_response_for(response, *result),
{
    match result {
        Ok(path) => match file_name_of(path.as_str()) {
            Some(file) => Response::Redirect { file },
            None => failure(&UploadError::MissingFileName),
        },
        Err(e) => failure(e),
    }
}

/// A request without a content type, or whose content type is not
/// `multipart/form-data` or names no boundary, is given up before its body
/// is read, so nothing is written, and it is answered with status 400.
pub proof fn lemma_bad_content_type_is_bad_request(
    content_type: Option<ContentType>,
    storage_dir: Seq<char>,
    id: Seq<char>,
    next: Phase,
    step: Step,
    response: Response,
)
    requires
        !declares_form_data(content_type) || lacks_param(content_type->0.params@, "boundary"@),
        is_move_for(next, step, storage_dir, id, Phase::Idle, UploadEvent::Request(content_type)),
        step is Fail ==> is_failure_of(response, step->Fail_0),
    ensures
        step is Fail,
        next == Phase::Finished,
        !declares_form_data(content_type) ==> step->Fail_0 is NotMultipart,
        declares_form_data(content_type) ==> step->Fail_0 is MissingBoundary,
        response is Failure,
        response->status == 400,
        response->message@ == step->Fail_0.spec_message(),
{
}

/// While the parts of a body are not the upload, each is skipped and the
/// scan goes on.
pub proof fn lemma_scan_skips_other_parts(
    phases: Seq<Phase>,
    steps: Seq<Step>,
    storage_dir: Seq<char>,
    id: Seq<char>,
    events: Seq<UploadEvent>,
    k: int,
)
    requires
        is_run(phases, steps, storage_dir, id, events),
        phases[0] == Phase::Scanning,
        0 <= k <= events.len(),
        forall|i: int|
            0 <= i < k ==> (#[trigger] events[i]) is Part && !events[i]->Part_0.spec_is_upload(),
    ensures
        phases[k] == Phase::Scanning,
        forall|i: int| 0 <= i < k ==> #[trigger] steps[i] is Skip,
    decreases k,
{
    if k > 0 {
        lemma_scan_skips_other_parts(phases, steps, storage_dir, id, events, k - 1);
        assert(events[k - 1] is Part);
        assert(is_move_for(
            phases[k],
            steps[k - 1],
            storage_dir,
            id,
            phases[k - 1],
            events[k - 1],
        ));
    }
}

/// A body in which no part is named `fileToUpload` is skipped part by part,
/// so nothing is written, and its end is answered with status 500 and the
/// text "no fileToUpload field found".
pub proof fn lemma_missing_field_is_server_error(
    parts: Seq<PartHeader>,
    phases: Seq<Phase>,
    steps: Seq<Step>,
    storage_dir: Seq<char>,
    id: Seq<char>,
    events: Seq<UploadEvent>,
    response: Response,
)
    requires
        no_upload(parts),
        events.len() == parts.len() + 1,
        forall|i: int| 0 <= i < parts.len() ==> #[trigger] events[i] == UploadEvent::Part(parts[i]),
        events[parts.len() as int] == UploadEvent::End,
        is_run(phases, steps, storage_dir, id, events),
        phases[0] == Phase::Scanning,
        steps[parts.len() as int] is Fail ==> is_failure_of(
            response,
            steps[parts.len() as int]->Fail_0,
        ),
    ensures
        forall|i: int| 0 <= i < parts.len() ==> #[trigger] steps[i] is Skip,
        steps[parts.len() as int] == Step::Fail(UploadError::NoFileField),
        response is Failure,
        response->status == 500,
        response->message@ == "no fileToUpload field found"@,
{
    let n = parts.len() as int;
    assert forall|i: int| 0 <= i < n implies (#[trigger] events[i]) is Part
        && !events[i]->Part_0.spec_is_upload() by {
        assert(!parts[i].spec_is_upload());
    }
    lemma_scan_skips_other_parts(phases, steps, storage_dir, id, events, n);
    assert(is_move_for(phases[n + 1], steps[n], storage_dir, id, phases[n], events[n]));
}

/// Of the parts of a body exactly the first one named `fileToUpload` is
/// saved: every part before it is skipped, its path is built from the
/// identifier and the extension of its own file name, and whatever follows
/// it is stopped.
pub proof fn lemma_first_upload_is_saved(
    parts: Seq<PartHeader>,
    k: int,
    phases: Seq<Phase>,
    steps: Seq<Step>,
    storage_dir: Seq<char>,
    id: Seq<char>,
    events: Seq<UploadEvent>,
)
    requires
        is_first_upload(parts, k),
        events.len() >= parts.len(),
        forall|i: int| 0 <= i < parts.len() ==> #[trigger] events[i] == UploadEvent::Part(parts[i]),
        is_run(phases, steps, storage_dir, id, events),
        phases[0] == Phase::Scanning,
    ensures
        forall|i: int| 0 <= i < k ==> #[trigger] steps[i] is Skip,
        steps[k] is Save,
        stored_at(steps[k]->path@, storage_dir, id, parts[k]),
        forall|j: int| k < j < steps.len() ==> #[trigger] steps[j] is Stop,
{
    assert forall|i: int| 0 <= i < k implies (#[trigger] events[i]) is Part
        && !events[i]->Part_0.spec_is_upload() by {
        assert(!parts[i].spec_is_upload());
    }
    lemma_scan_skips_other_parts(phases, steps, storage_dir, id, events, k);
    assert(events[k] == UploadEvent::Part(parts[k]));
    assert(is_move_for(phases[k + 1], steps[k], storage_dir, id, phases[k], events[k]));
    assert forall|j: int| k < j < steps.len() implies #[trigger] steps[j] is Stop by {
        lemma_at_most_one_save(phases, steps, storage_dir, id, events, k, j);
    }
}

/// A completed upload redirects to the link page of exactly the stored
/// name: the identifier with the extension of the uploaded file's name, and
/// nothing else of that name.
pub proof fn lemma_saved_upload_redirects_to_stored_name(
    storage_dir: Seq<char>,
    id: Seq<char>,
    part: PartHeader,
    next: Phase,
    step: Step,
    verdict: Result<String, UploadError>,
    response: Response,
)
    requires
        is_identifier(id),
        part.spec_is_upload(),
        is_move_for(next, step, storage_dir, id, Phase::Scanning, UploadEvent::Part(part)),
        step is Save ==> is_verdict_for(verdict, SaveOutcome::File(step->path)),
        is_response_for(response, verdict),
    ensures
        step is Save,
        next == Phase::Finished,
        verdict == Ok::<String, UploadError>(step->path),
        response is Redirect,
        response->file@ == spec_stored_name(id, part.spec_file_name()),
        extension(response->file@) == kept_extension(part.spec_file_name()),
{
    lemma_stored_path_file_name(storage_dir, id, part.spec_file_name());
    lemma_stored_name_keeps_extension(id, part.spec_file_name());
}

/// Once the upload is decided nothing changes any more.
pub proof fn lemma_finished_stays_finished(
    phases: Seq<Phase>,
    steps: Seq<Step>,
    storage_dir: Seq<char>,
    id: Seq<char>,
    events: Seq<UploadEvent>,
    i: int,
    k: int,
)
    requires
        is_run(phases, steps, storage_dir, id, events),
        0 <= i <= k <= events.len(),
        phases[i] == Phase::Finished,
    ensures
        phases[k] == Phase::Finished,
    decreases k - i,
{
    if i < k {
        lemma_finished_stays_finished(phases, steps, storage_dir, id, events, i, k - 1);
        assert(is_move_for(
            phases[k],
            steps[k - 1],
            storage_dir,
            id,
            phases[k - 1],
            events[k - 1],
        ));
    }
}

/// Whatever the events of a request are, at most one part of it is saved:
/// after a step that saves, every later event is stopped.
pub proof fn lemma_at_most_one_save(
    phases: Seq<Phase>,
    steps: Seq<Step>,
    storage_dir: Seq<char>,
    id: Seq<char>,
    events: Seq<UploadEvent>,
    i: int,
    j: int,
)
    requires
        is_run(phases, steps, storage_dir, id, events),
        0 <= i < j < events.len(),
        steps[i] is Save,
    ensures
        steps[j] is Stop,
{
    lemma_finished_stays_finished(phases, steps, storage_dir, id, events, i + 1, j);
}

} // verus!
