//! The per-request pipeline, as a state machine.
//!
//! One conversion request moves through five phases: the input scratch file
//! is created; the inbound body is streamed into it chunk by chunk; the
//! target format is validated (deliberately only after the whole body has
//! been consumed, which is the service's observable behaviour); the external
//! converter is run; and the converter's output file is opened, measured and
//! streamed back. Every decision along the way — what to write, what to run,
//! what to answer — is the value of one verified transition function; the
//! unverified runtime around the library only performs the returned actions
//! and feeds the outcome back in as the next event.

use vstd::prelude::*;
use crate::auth::{authorize, gate_passes, header_view};
use crate::bytes::clone_bytes;
use crate::format::{format_allowed, format_is_allowed};
use crate::identity::{output_name_of, start_work, WorkItem, WorkItemView};
use crate::invoker::{argv_of, classify_spec, converter_argv, ExitClass, ProcessOutcome};

verus! {

pub const STATUS_OK: u16 = 200;

pub const STATUS_BAD_REQUEST: u16 = 400;

pub const STATUS_UNAUTHORIZED: u16 = 401;

pub const STATUS_INTERNAL_ERROR: u16 = 500;

/// Where one request stands.
pub enum RequestState {
    /// The input scratch file is being created.
    Creating { work: WorkItem },
    /// Body chunks are being streamed into the input file.
    Receiving { work: WorkItem },
    /// The converter is running over the input file.
    Converting { work: WorkItem },
    /// The converter succeeded; its output file is being opened.
    Opening { work: WorkItem },
    /// The response is decided; nothing more happens for this request.
    Finished { status: u16 },
}

/// What the runtime reports back to the pipeline.
pub enum Event {
    /// The input scratch file was created and opened for writing.
    InputFileCreated,
    /// The input scratch file could not be created or opened.
    InputFileFailed,
    /// One chunk was read from the inbound body.
    BodyChunk { bytes: Vec<u8> },
    /// Reading the inbound body failed.
    BodyReadFailed,
    /// Writing to the input file failed.
    WriteFailed,
    /// The inbound body ended; the input file is flushed.
    BodyEnded,
    /// The converter run ended this way.
    ConverterFinished { outcome: ProcessOutcome },
    /// The output file was opened and measured: this many bytes.
    OutputOpened { content_length: u64 },
    /// The output file could not be opened.
    OutputOpenFailed,
}

/// What the pipeline tells the runtime to do next.
pub enum Action {
    /// Create the input scratch file under this name.
    CreateInput { name: Vec<u8> },
    /// Keep pulling chunks from the inbound body.
    AwaitBody,
    /// Append exactly these bytes to the input file.
    WriteChunk { bytes: Vec<u8> },
    /// Run the converter, in the scratch directory, with these arguments.
    Invoke { argv: Vec<Vec<u8>> },
    /// Open the converter's output file under this name and measure it.
    OpenOutput { name: Vec<u8> },
    /// Respond 200, with this Content-Length, streaming this file.
    RespondFile { name: Vec<u8>, content_length: u64 },
    /// Respond with this status and no body.
    RespondStatus { status: u16 },
}

/// Mathematical view of a request state.
pub enum StateView {
    Creating { work: WorkItemView },
    Receiving { work: WorkItemView },
    Converting { work: WorkItemView },
    Opening { work: WorkItemView },
    Finished { status: u16 },
}

/// Mathematical view of an event.
pub enum EventView {
    InputFileCreated,
    InputFileFailed,
    BodyChunk { bytes: Seq<u8> },
    BodyReadFailed,
    WriteFailed,
    BodyEnded,
    ConverterFinished { outcome: ProcessOutcome },
    OutputOpened { content_length: u64 },
    OutputOpenFailed,
}

/// Mathematical view of an action.
pub enum ActionView {
    CreateInput { name: Seq<u8> },
    AwaitBody,
    WriteChunk { bytes: Seq<u8> },
    Invoke { argv: Seq<Seq<u8>> },
    OpenOutput { name: Seq<u8> },
    RespondFile { name: Seq<u8>, content_length: u64 },
    RespondStatus { status: u16 },
}

impl View for RequestState {
    type V = StateView;

    open spec fn view(&self) -> StateView {
        match self {
            RequestState::Creating { work } => StateView::Creating { work: work@ },
            RequestState::Receiving { work } => StateView::Receiving { work: work@ },
            RequestState::Converting { work } => StateView::Converting { work: work@ },
            RequestState::Opening { work } => StateView::Opening { work: work@ },
            RequestState::Finished { status } => StateView::Finished { status: *status },
        }
    }
}

impl View for Event {
    type V = EventView;

    open spec fn view(&self) -> EventView {
        match self {
            Event::InputFileCreated => EventView::InputFileCreated,
            Event::InputFileFailed => EventView::InputFileFailed,
            Event::BodyChunk { bytes } => EventView::BodyChunk { bytes: bytes@ },
            Event::BodyReadFailed => EventView::BodyReadFailed,
            Event::WriteFailed => EventView::WriteFailed,
            Event::BodyEnded => EventView::BodyEnded,
            Event::ConverterFinished { outcome } => EventView::ConverterFinished {
                outcome: *outcome,
            },
            Event::OutputOpened { content_length } => EventView::OutputOpened {
                content_length: *content_length,
            },
            Event::OutputOpenFailed => EventView::OutputOpenFailed,
        }
    }
}

impl View for Action {
    type V = ActionView;

    open spec fn view(&self) -> ActionView {
        match self {
            Action::CreateInput { name } => ActionView::CreateInput { name: name@ },
            Action::AwaitBody => ActionView::AwaitBody,
            Action::WriteChunk { bytes } => ActionView::WriteChunk { bytes: bytes@ },
            Action::Invoke { argv } => ActionView::Invoke { argv: argv.deep_view() },
            Action::OpenOutput { name } => ActionView::OpenOutput { name: name@ },
            Action::RespondFile { name, content_length } => ActionView::RespondFile {
                name: name@,
                content_length: *content_length,
            },
            Action::RespondStatus { status } => ActionView::RespondStatus { status: *status },
        }
    }
}

/// Which events can arrive in which state: within one request the steps are
/// strictly sequential, and a finished request sees nothing further.
pub open spec fn event_fits(s: StateView, e: EventView) -> bool {
    match s {
        StateView::Creating { .. } => e is InputFileCreated || e is InputFileFailed,
        StateView::Receiving { .. } => e is BodyChunk || e is BodyReadFailed || e is WriteFailed
            || e is BodyEnded,
        StateView::Converting { .. } => e is ConverterFinished,
        StateView::Opening { .. } => e is OutputOpened || e is OutputOpenFailed,
        StateView::Finished { .. } => false,
    }
}

/// Invariant of a request state: the work item is well formed, and once the
/// converter has been invoked the target format is known to be allowed.
pub open spec fn state_wf(s: StateView) -> bool {
    match s {
        StateView::Creating { work } => work.wf(),
        StateView::Receiving { work } => work.wf(),
        StateView::Converting { work } => work.wf() && format_allowed(work.format_raw),
        StateView::Opening { work } => work.wf() && format_allowed(work.format_raw),
        StateView::Finished { .. } => true,
    }
}

/// The pipeline's transition function: from a state and an event to the next
/// state and the action the runtime must perform.
pub open spec fn step_spec(s: StateView, e: EventView) -> (StateView, ActionView)
    recommends
        event_fits(s, e),
{
    let fail = (
        StateView::Finished { status: STATUS_INTERNAL_ERROR },
        ActionView::RespondStatus { status: STATUS_INTERNAL_ERROR },
    );
    match (s, e) {
        (StateView::Creating { work }, EventView::InputFileCreated) => (
            StateView::Receiving { work },
            ActionView::AwaitBody,
        ),
        (StateView::Creating { .. }, EventView::InputFileFailed) => fail,
        (StateView::Receiving { work }, EventView::BodyChunk { bytes }) => (
            StateView::Receiving { work },
            ActionView::WriteChunk { bytes },
        ),
        (StateView::Receiving { .. }, EventView::BodyReadFailed) => fail,
        (StateView::Receiving { .. }, EventView::WriteFailed) => fail,
        (StateView::Receiving { work }, EventView::BodyEnded) => if format_allowed(
            work.format_raw,
        ) {
            (StateView::Converting { work }, ActionView::Invoke { argv: argv_of(work) })
        } else {
            (
                StateView::Finished { status: STATUS_BAD_REQUEST },
                ActionView::RespondStatus { status: STATUS_BAD_REQUEST },
            )
        },
        (StateView::Converting { work }, EventView::ConverterFinished { outcome }) => match
        classify_spec(outcome) {
            ExitClass::Success => (
                StateView::Opening { work },
                ActionView::OpenOutput { name: output_name_of(work.id, work.format_raw) },
            ),
            ExitClass::DocumentRejected => (
                StateView::Finished { status: STATUS_BAD_REQUEST },
                ActionView::RespondStatus { status: STATUS_BAD_REQUEST },
            ),
            ExitClass::Infrastructure => fail,
        },
        (StateView::Opening { work }, EventView::OutputOpened { content_length }) => (
            StateView::Finished { status: STATUS_OK },
            ActionView::RespondFile {
                name: output_name_of(work.id, work.format_raw),
                content_length,
            },
        ),
        (StateView::Opening { .. }, EventView::OutputOpenFailed) => fail,
        _ => fail,
    }
}

/// Performs one pipeline transition.
pub fn step(s: RequestState, e: Event) -> (r: (RequestState, Action))
    requires
        event_fits(s@, e@),
        state_wf(s@),
    ensures
        r.0@ == step_spec(s@, e@).0,
        r.1@ == step_spec(s@, e@).1,
        state_wf(r.0@),
{
    match (s, e) {
        (RequestState::Creating { work }, Event::InputFileCreated) => (
            RequestState::Receiving { work },
            Action::AwaitBody,
        ),
        (RequestState::Creating { .. }, Event::InputFileFailed) => internal_error(),
        (RequestState::Receiving { work }, Event::BodyChunk { bytes }) => (
            RequestState::Receiving { work },
            Action::WriteChunk { bytes },
        ),
        (RequestState::Receiving { .. }, Event::BodyReadFailed) => internal_error(),
        (RequestState::Receiving { .. }, Event::WriteFailed) => internal_error(),
        (RequestState::Receiving { work }, Event::BodyEnded) => {
            if format_is_allowed(&work.format_raw) {
                let argv = converter_argv(&work);
                (RequestState::Converting { work }, Action::Invoke { argv })
            } else {
                (
                    RequestState::Finished { status: STATUS_BAD_REQUEST },
                    Action::RespondStatus { status: STATUS_BAD_REQUEST },
                )
            }
        },
        (RequestState::Converting { work }, Event::ConverterFinished { outcome }) => {
            match crate::invoker::classify_outcome(&outcome) {
                ExitClass::Success => {
                    let name = crate::identity::output_file_name(&work);
                    (RequestState::Opening { work }, Action::OpenOutput { name })
                },
                ExitClass::DocumentRejected => (
                    RequestState::Finished { status: STATUS_BAD_REQUEST },
                    Action::RespondStatus { status: STATUS_BAD_REQUEST },
                ),
                ExitClass::Infrastructure => internal_error(),
            }
        },
        (RequestState::Opening { work }, Event::OutputOpened { content_length }) => {
            let name = crate::identity::output_file_name(&work);
            (
                RequestState::Finished { status: STATUS_OK },
                Action::RespondFile { name, content_length },
            )
        },
        (RequestState::Opening { .. }, Event::OutputOpenFailed) => internal_error(),
        _ => {
            proof {
                assert(false);
            }
            internal_error()
        },
    }
}

/// The transition into an infrastructure failure: respond 500.
fn internal_error() -> (r: (RequestState, Action))
    ensures
        r.0@ == (StateView::Finished { status: STATUS_INTERNAL_ERROR }),
        r.1@ == (ActionView::RespondStatus { status: STATUS_INTERNAL_ERROR }),
{
    (
        RequestState::Finished { status: STATUS_INTERNAL_ERROR },
        Action::RespondStatus { status: STATUS_INTERNAL_ERROR },
    )
}

/// Checks one request's credential, and when it is right, starts the
/// request's work item: a fresh identity is drawn and the runtime is told
/// to make the input file. A request without the right credential is answered 401 and no
/// work item — hence no scratch-file action — ever exists for it.
pub fn begin_request(header: Option<Vec<u8>>, secret: &Vec<u8>, format_raw: Vec<u8>) -> (r: Result<
    (RequestState, Action),
    u16,
>)
    ensures
        r is Ok <==> gate_passes(header_view(header), secret@),
        (match r {
            Result::Ok((s, a)) => {
                &&& state_wf(s@)
                &&& match s@ {
                    StateView::Creating { work } => {
                        &&& work.format_raw == format_raw@
                        &&& a@ == ActionView::CreateInput { name: work.input_name }
                    },
                    _ => false,
                }
            },
            Result::Err(status) => status == STATUS_UNAUTHORIZED,
        }),
{
    if authorize(&header, secret) {
        let work = start_work(format_raw);
        let name = clone_bytes(&work.input_name);
        Ok((RequestState::Creating { work }, Action::CreateInput { name }))
    } else {
        Err(STATUS_UNAUTHORIZED)
    }
}

/// Law: a target format outside the allow-list is answered 400 after the
/// upload, and the converter is never invoked — no transition issues an
/// invocation unless the work item's format is on the allow-list.
pub proof fn lemma_disallowed_format_never_invoked(s: StateView, e: EventView)
    requires
        event_fits(s, e),
    ensures
        step_spec(s, e).1 is Invoke ==> (s matches StateView::Receiving { work }
            && format_allowed(work.format_raw)),
        (s matches StateView::Receiving { work } && e is BodyEnded && !format_allowed(
            work.format_raw,
        )) ==> step_spec(s, e) == (
            StateView::Finished { status: STATUS_BAD_REQUEST },
            ActionView::RespondStatus { status: STATUS_BAD_REQUEST },
        ),
{
}

/// Law: body bytes are written verbatim — each chunk read from the inbound
/// stream is handed to the input file unchanged, and the request goes on
/// receiving.
pub proof fn lemma_chunk_written_verbatim(w: WorkItemView, bytes: Seq<u8>)
    ensures
        step_spec(StateView::Receiving { work: w }, EventView::BodyChunk { bytes }) == (
            StateView::Receiving { work: w },
            ActionView::WriteChunk { bytes },
        ),
{
}

/// Law: the success path responds exactly — when the converter exits zero,
/// the file the pipeline opens, and then streams with status 200, is
/// precisely the converter's own output `{identity}.{format}`, and the
/// declared Content-Length is exactly the measured byte count of that file.
pub proof fn lemma_success_response_exact(w: WorkItemView, outcome: ProcessOutcome, len: u64)
    requires
        classify_spec(outcome) is Success,
    ensures
        step_spec(
            StateView::Converting { work: w },
            EventView::ConverterFinished { outcome },
        ) == (
            StateView::Opening { work: w },
            ActionView::OpenOutput { name: output_name_of(w.id, w.format_raw) },
        ),
        step_spec(
            StateView::Opening { work: w },
            EventView::OutputOpened { content_length: len },
        ) == (
            StateView::Finished { status: STATUS_OK },
            ActionView::RespondFile { name: output_name_of(w.id, w.format_raw), content_length: len },
        ),
{
}

/// Law: a converter exit other than zero blames the document — the request
/// is answered 400 and no output file is ever opened for it.
pub proof fn lemma_converter_rejection(w: WorkItemView, outcome: ProcessOutcome)
    requires
        classify_spec(outcome) is DocumentRejected,
    ensures
        step_spec(
            StateView::Converting { work: w },
            EventView::ConverterFinished { outcome },
        ) == (
            StateView::Finished { status: STATUS_BAD_REQUEST },
            ActionView::RespondStatus { status: STATUS_BAD_REQUEST },
        ),
{
}

/// Law: the conversion plan is a function of the work item alone — two work
/// items with equal identity and equal target format are handed
/// byte-identical converter command lines and name the same output file.
/// With a deterministic converter, byte-identical uploads to the same format
/// therefore convert identically.
pub proof fn lemma_conversion_deterministic(w1: WorkItemView, w2: WorkItemView)
    requires
        w1.wf(),
        w2.wf(),
        w1.id == w2.id,
        w1.format_raw == w2.format_raw,
    ensures
        argv_of(w1) == argv_of(w2),
        output_name_of(w1.id, w1.format_raw) == output_name_of(w2.id, w2.format_raw),
{
    assert(w1.input_name == w2.input_name);
    assert(argv_of(w1) =~= argv_of(w2));
}

/// Law: a finished request is finished — no event fits a terminal state, so
/// a request once answered (200, 400, 401 or 500) never issues another
/// action.
pub proof fn lemma_finished_is_terminal(status: u16, e: EventView)
    ensures
        !event_fits(StateView::Finished { status }, e),
{
}

} // verus!
