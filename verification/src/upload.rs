//! The upload pipeline: one file part of a multipart request is received,
//! its declared name is sanitized, and its bytes are streamed to a file in
//! the upload directory. The pipeline decides; its caller reads the request
//! and writes the file, and reports each outcome as an event.

use crate::reply::{Body, Notice, Reply, Status};
use crate::paths::{
    check_confined, is_confined, is_dot_name, join, joined, lemma_joined_adds_one_segment,
    segments,
};
use crate::sanitize::{sanitize, sanitized};
use vstd::prelude::*;

verus! {

/// Where uploads are stored and under which address they are served.
#[derive(Debug, PartialEq, Eq)]
pub struct UploadConfig {
    /// The upload directory.
    pub directory: String,
    /// The address under which the files of the directory are served.
    pub base_url: String,
    /// Whether names are also sanitized by the rules for Windows.
    pub windows: bool,
}

/// What the caller is doing while a part is streamed.
#[derive(Debug, Clone, Copy, PartialEq, Eq)]
pub enum StreamStep {
    /// Creating the directory, if absent, and the file.
    Opening,
    /// Waiting for the next chunk of the part.
    Reading,
    /// Writing the chunk that arrived.
    Writing,
}

/// The state of one upload. `Committed`, `Rejected` and `Failed` are final.
/// Between `ReceivingPart` and `Streaming` the name is found present and is
/// sanitized, or found absent, within one step. A name of which sanitizing
/// leaves nothing counts as absent.
#[derive(Debug, PartialEq, Eq)]
pub enum UploadState {
    Idle,
    ReceivingPart,
    /// The part is being stored under the sanitized `name`.
    Streaming { name: String, step: StreamStep },
    /// The file is stored and can be fetched at `location`.
    Committed { location: String },
    /// The request was refused; nothing was written.
    Rejected { notice: Notice },
    /// Reading or writing failed; a part of the file may remain.
    Failed { notice: Notice },
}

/// What the caller reports.
#[derive(Debug, PartialEq, Eq)]
pub enum UploadEvent {
    /// A request arrived.
    Started,
    /// The first part arrived, with the file name it declares, if any.
    Part { filename: Option<String> },
    /// The first part could not be read.
    PartMalformed,
    /// The request holds no part.
    NoPart,
    /// The directory is there and the file was created.
    Opened,
    /// The directory could not be created.
    DirectoryNotCreated,
    /// The file could not be created.
    FileNotCreated,
    /// A chunk of the part arrived.
    Chunk,
    /// A chunk failed to arrive.
    ChunkNotRead,
    /// The part has no more chunks.
    EndOfPart,
    /// The chunk was written.
    Written,
    /// The chunk could not be written.
    NotWritten,
}

/// What the caller has to do next.
#[derive(Debug, PartialEq, Eq)]
pub enum UploadAction {
    /// Read the first part of the request.
    ReadPart,
    /// Create `directory` if it is absent, then create the file `path`.
    Open { directory: String, path: String },
    /// Read the next chunk of the part.
    ReadChunk,
    /// Write the chunk to the file.
    WriteChunk,
    /// Answer the request: the state is final.
    Respond,
    /// Nothing: the state did not expect the event and has not changed.
    Ignore,
}

/// An upload state as contracts see it.
pub enum StateView {
    Idle,
    ReceivingPart,
    Streaming { name: Seq<char>, step: StreamStep },
    Committed { location: Seq<char> },
    Rejected { notice: Notice },
    Failed { notice: Notice },
}

/// An action as contracts see it.
pub enum ActionView {
    ReadPart,
    Open { directory: Seq<char>, path: Seq<char> },
    ReadChunk,
    WriteChunk,
    Respond,
    Ignore,
}

impl View for UploadState {
    type V = StateView;

    open spec fn view(&self) -> StateView {
        match self {
            UploadState::Idle => StateView::Idle,
            UploadState::ReceivingPart => StateView::ReceivingPart,
            UploadState::Streaming { name, step } => StateView::Streaming {
                name: name@,
                step: *step,
            },
            UploadState::Committed { location } => StateView::Committed { location: location@ },
            UploadState::Rejected { notice } => StateView::Rejected { notice: *notice },
            UploadState::Failed { notice } => StateView::Failed { notice: *notice },
        }
    }
}

impl View for UploadAction {
    type V = ActionView;

    open spec fn view(&self) -> ActionView {
        match self {
            UploadAction::ReadPart => ActionView::ReadPart,
            UploadAction::Open { directory, path } => ActionView::Open {
                directory: directory@,
                path: path@,
            },
            UploadAction::ReadChunk => ActionView::ReadChunk,
            UploadAction::WriteChunk => ActionView::WriteChunk,
            UploadAction::Respond => ActionView::Respond,
            UploadAction::Ignore => ActionView::Ignore,
        }
    }
}

impl StateView {
    /// A final state: the request is answered and nothing follows.
    pub open spec fn is_final(self) -> bool {
        self is Committed || self is Rejected || self is Failed
    }
}

impl UploadConfig {
    /// The path of the file that is stored under `name`.
    pub open spec fn destination(self, name: Seq<char>) -> Seq<char> {
        joined(self.directory@, name)
    }

    /// The address at which the file stored under `name` is served.
    pub open spec fn location(self, name: Seq<char>) -> Seq<char> {
        joined(self.base_url@, name)
    }

    /// The state and the action that follow once the name is sanitized. A
    /// confined name has its destination opened. Any other name, the empty
    /// one above all, is rejected like a missing one, and nothing is opened.
    pub open spec fn accepted(self, name: Seq<char>) -> (StateView, ActionView) {
        if is_confined(name) {
            (
                StateView::Streaming { name, step: StreamStep::Opening },
                ActionView::Open { directory: self.directory@, path: self.destination(name) },
            )
        } else {
            (StateView::Rejected { notice: Notice::FilenameMissing }, ActionView::Respond)
        }
    }

    /// The state and the action that follow `state` on `event`. An event
    /// that the state does not expect changes nothing; so does every event
    /// in a final state, and every part after the first.
    pub open spec fn transition(self, state: StateView, event: UploadEvent) -> (
        StateView,
        ActionView,
    ) {
        match (state, event) {
            (StateView::Idle, UploadEvent::Started) => (
                StateView::ReceivingPart,
                ActionView::ReadPart,
            ),
            (StateView::ReceivingPart, UploadEvent::Part { filename: Some(declared) }) => {
                self.accepted(sanitized(declared@, self.windows))
            },
            (StateView::ReceivingPart, UploadEvent::Part { filename: None }) => (
                StateView::Rejected { notice: Notice::FilenameMissing },
                ActionView::Respond,
            ),
            (StateView::ReceivingPart, UploadEvent::PartMalformed) => (
                StateView::Rejected { notice: Notice::FieldMalformed },
                ActionView::Respond,
            ),
            (StateView::ReceivingPart, UploadEvent::NoPart) => (
                StateView::Rejected { notice: Notice::NoFile },
                ActionView::Respond,
            ),
            (StateView::Streaming { name, step: StreamStep::Opening }, UploadEvent::Opened) => (
                StateView::Streaming { name, step: StreamStep::Reading },
                ActionView::ReadChunk,
            ),
            (
                StateView::Streaming { name, step: StreamStep::Opening },
                UploadEvent::DirectoryNotCreated,
            ) => (StateView::Failed { notice: Notice::DirectoryFailed }, ActionView::Respond),
            (
                StateView::Streaming { name, step: StreamStep::Opening },
                UploadEvent::FileNotCreated,
            ) => (StateView::Failed { notice: Notice::FileFailed }, ActionView::Respond),
            (StateView::Streaming { name, step: StreamStep::Reading }, UploadEvent::Chunk) => (
                StateView::Streaming { name, step: StreamStep::Writing },
                ActionView::WriteChunk,
            ),
            (
                StateView::Streaming { name, step: StreamStep::Reading },
                UploadEvent::ChunkNotRead,
            ) => (StateView::Failed { notice: Notice::ChunkFailed }, ActionView::Respond),
            (StateView::Streaming { name, step: StreamStep::Reading }, UploadEvent::EndOfPart) => (
                StateView::Committed { location: self.location(name) },
                ActionView::Respond,
            ),
            (StateView::Streaming { name, step: StreamStep::Writing }, UploadEvent::Written) => (
                StateView::Streaming { name, step: StreamStep::Reading },
                ActionView::ReadChunk,
            ),
            (StateView::Streaming { name, step: StreamStep::Writing }, UploadEvent::NotWritten) => (
                StateView::Failed { notice: Notice::WriteFailed },
                ActionView::Respond,
            ),
            _ => (state, ActionView::Ignore),
        }
    }

    /// The state names only entries of the upload directory: a file that is
    /// being stored has a confined name, which is not empty, and a stored
    /// file is served under a confined name.
    pub open spec fn state_confined(self, state: StateView) -> bool {
        match state {
            StateView::Streaming { name, .. } => is_confined(name),
            StateView::Committed { location } => exists|name: Seq<char>| #[trigger]
                is_confined(name) && location == self.location(name),
            _ => true,
        }
    }

    /// The action touches only entries of the upload directory: the file to
    /// open is the upload directory joined to a confined name, so never the
    /// directory itself.
    pub open spec fn action_confined(self, action: ActionView) -> bool {
        match action {
            ActionView::Open { directory, path } => directory == self.directory@ && exists|
                name: Seq<char>,
            | #[trigger] is_confined(name) && path == self.destination(name),
            _ => true,
        }
    }

    /// A configuration.
    pub fn new(directory: String, base_url: String, windows: bool) -> (config: UploadConfig)
        ensures
            config == (UploadConfig { directory, base_url, windows }),
    {
        UploadConfig { directory, base_url, windows }
    }

    /// The configuration of a server on this machine: files are stored in
    /// `./uploads` and served under `http://127.0.0.1:8080/uploads`.
    pub fn local(windows: bool) -> (config: UploadConfig)
        ensures
            config.directory@ == "./uploads"@,
            config.base_url@ == "http://127.0.0.1:8080/uploads"@,
            config.windows == windows,
    {
        UploadConfig {
            directory: "./uploads".to_owned(),
            base_url: "http://127.0.0.1:8080/uploads".to_owned(),
            windows,
        }
    }

    /// The path of the file that is stored under `name`.
    pub fn path_of(&self, name: &str) -> (path: String)
        ensures
            path@ == self.destination(name@),
    {
        join(self.directory.as_str(), name)
    }

    /// The address at which the file stored under `name` is served. It
    /// depends on the name and the configured address alone.
    pub fn url_of(&self, name: &str) -> (url: String)
        ensures
            url@ == self.location(name@),
    {
        join(self.base_url.as_str(), name)
    }

    /// Goes on with a name that was sanitized. The name is checked here,
    /// whatever the sanitizer gave: with a confined name the pipeline starts
    /// to stream and asks for the destination to be opened; any other name
    /// is rejected and nothing is opened.
    pub fn accept_filename(&self, name: String) -> (result: (UploadState, UploadAction))
        ensures
            (result.0@, result.1@) == self.accepted(name@),
            result.0@ is Streaming <==> is_confined(name@),
            self.state_confined(result.0@),
            self.action_confined(result.1@),
    {
        if check_confined(name.as_str()) {
            let path = self.path_of(name.as_str());
            let directory = self.directory.clone();
            (
                UploadState::Streaming { name, step: StreamStep::Opening },
                UploadAction::Open { directory, path },
            )
        } else {
            (UploadState::Rejected { notice: Notice::FilenameMissing }, UploadAction::Respond)
        }
    }

    /// Takes one event and gives the next state and what to do next. The
    /// first part's declared name is sanitized here. A part without a name,
    /// or with a name of which sanitizing leaves nothing, is rejected before
    /// anything is opened. Whatever the state and the declared name, the
    /// action touches only entries of the upload directory, and a name that
    /// the state did not hold before is confined; from a confined state only
    /// confined states follow.
    pub fn step(&self, state: UploadState, event: UploadEvent) -> (result: (
        UploadState,
        UploadAction,
    ))
        ensures
            (result.0@, result.1@) == self.transition(state@, event),
            self.action_confined(result.1@),
            self.state_confined(state@) ==> self.state_confined(result.0@),
            result.0@ matches StateView::Streaming { name, .. } ==> is_confined(name) || (
            state@ matches StateView::Streaming { name: held, .. } && held == name),
            state@ is ReceivingPart ==> self.state_confined(result.0@),
            state@ is ReceivingPart ==> (event matches UploadEvent::Part {
                filename: Some(declared),
            } ==> (result.0@ is Streaming <==> sanitized(declared@, self.windows).len() > 0)),
    {
        match (state, event) {
            (UploadState::Idle, UploadEvent::Started) => (
                UploadState::ReceivingPart,
                UploadAction::ReadPart,
            ),
            (UploadState::ReceivingPart, UploadEvent::Part { filename: Some(declared) }) => {
                let name = sanitize(declared.as_str(), self.windows);
                self.accept_filename(name)
            },
            (UploadState::ReceivingPart, UploadEvent::Part { filename: None }) => (
                UploadState::Rejected { notice: Notice::FilenameMissing },
                UploadAction::Respond,
            ),
            (UploadState::ReceivingPart, UploadEvent::PartMalformed) => (
                UploadState::Rejected { notice: Notice::FieldMalformed },
                UploadAction::Respond,
            ),
            (UploadState::ReceivingPart, UploadEvent::NoPart) => (
                UploadState::Rejected { notice: Notice::NoFile },
                UploadAction::Respond,
            ),
            (UploadState::Streaming { name, step: StreamStep::Opening }, UploadEvent::Opened) => (
                UploadState::Streaming { name, step: StreamStep::Reading },
                UploadAction::ReadChunk,
            ),
            (
                UploadState::Streaming { name: _, step: StreamStep::Opening },
                UploadEvent::DirectoryNotCreated,
            ) => (UploadState::Failed { notice: Notice::DirectoryFailed }, UploadAction::Respond),
            (
                UploadState::Streaming { name: _, step: StreamStep::Opening },
                UploadEvent::FileNotCreated,
            ) => (UploadState::Failed { notice: Notice::FileFailed }, UploadAction::Respond),
            (UploadState::Streaming { name, step: StreamStep::Reading }, UploadEvent::Chunk) => (
                UploadState::Streaming { name, step: StreamStep::Writing },
                UploadAction::WriteChunk,
            ),
            (
                UploadState::Streaming { name: _, step: StreamStep::Reading },
                UploadEvent::ChunkNotRead,
            ) => (UploadState::Failed { notice: Notice::ChunkFailed }, UploadAction::Respond),
            (
                UploadState::Streaming { name, step: StreamStep::Reading },
                UploadEvent::EndOfPart,
            ) => {
                let location = self.url_of(name.as_str());
                (UploadState::Committed { location }, UploadAction::Respond)
            },
            (UploadState::Streaming { name, step: StreamStep::Writing }, UploadEvent::Written) => (
                UploadState::Streaming { name, step: StreamStep::Reading },
                UploadAction::ReadChunk,
            ),
            (
                UploadState::Streaming { name: _, step: StreamStep::Writing },
                UploadEvent::NotWritten,
            ) => (UploadState::Failed { notice: Notice::WriteFailed }, UploadAction::Respond),
            (state, _) => (state, UploadAction::Ignore),
        }
    }
}

/// The answer of a final state: the location of a stored file, or the
/// notice of a rejected or failed upload under its status. A state that is
/// not final has no answer yet.
pub fn answer(state: UploadState) -> (reply: Option<Reply>)
    ensures
        reply == match state {
            UploadState::Committed { location } => Some(
                Reply { status: Status::Success, body: Body::Location(location) },
            ),
            UploadState::Rejected { notice } => Some(Reply::of_notice(notice)),
            UploadState::Failed { notice } => Some(Reply::of_notice(notice)),
            _ => None,
        },
        reply is Some <==> state@.is_final(),
{
    match state {
        UploadState::Committed { location } => Some(
            Reply { status: Status::Success, body: Body::Location(location) },
        ),
        UploadState::Rejected { notice } => Some(Reply::notice(notice)),
        UploadState::Failed { notice } => Some(Reply::notice(notice)),
        _ => None,
    }
}

/// A final state takes no event: it stays, and nothing is to be done.
pub proof fn lemma_final_absorbs(config: UploadConfig, state: StateView, event: UploadEvent)
    requires
        state.is_final(),
    ensures
        config.transition(state, event) == (state, ActionView::Ignore),
{
}

/// Only the first part counts: once the pipeline has left `ReceivingPart`, a
/// further part changes nothing.
pub proof fn lemma_later_parts_ignored(
    config: UploadConfig,
    state: StateView,
    filename: Option<String>,
)
    requires
        !(state is ReceivingPart),
    ensures
        config.transition(state, UploadEvent::Part { filename }) == (state, ActionView::Ignore),
{
}

/// Nothing is opened without a usable name: the one step that asks for a
/// file to be opened takes the first part with the name it declares, the
/// sanitized form of that name is confined, and the file is the upload
/// directory joined to it. A part without a name, and a part of whose name
/// sanitizing leaves nothing, is rejected as a bad request.
pub proof fn lemma_open_needs_name(config: UploadConfig, state: StateView, event: UploadEvent)
    ensures
        config.transition(state, event).1 is Open ==> {
            &&& state is ReceivingPart
            &&& event matches UploadEvent::Part { filename: Some(declared) }
            &&& is_confined(sanitized(declared@, config.windows))
            &&& config.transition(state, event) == (
                StateView::Streaming {
                    name: sanitized(declared@, config.windows),
                    step: StreamStep::Opening,
                },
                ActionView::Open {
                    directory: config.directory@,
                    path: config.destination(sanitized(declared@, config.windows)),
                },
            )
        },
        state is ReceivingPart && event == (UploadEvent::Part { filename: None })
            ==> config.transition(state, event) == (
            StateView::Rejected { notice: Notice::FilenameMissing },
            ActionView::Respond,
        ),
        state is ReceivingPart ==> (event matches UploadEvent::Part { filename: Some(declared) }
            ==> sanitized(declared@, config.windows).len() == 0 ==> config.transition(state, event)
            == (StateView::Rejected { notice: Notice::FilenameMissing }, ActionView::Respond)),
        Notice::FilenameMissing.spec_status() == Status::BadRequest,
{
}

/// A file is committed only at the end of a part whose chunks were all
/// read and written, and its location is the configured address joined to
/// the name it was stored under.
pub proof fn lemma_commit_needs_stream(config: UploadConfig, state: StateView, event: UploadEvent)
    requires
        !(state is Committed),
        config.transition(state, event).0 is Committed,
    ensures
        event == UploadEvent::EndOfPart,
        state matches StateView::Streaming { name, step: StreamStep::Reading }
            && config.transition(state, event).0 == (StateView::Committed {
            location: config.location(name),
        }),
{
}

/// What ends an upload early: a refusal is a bad request and comes before
/// anything is opened; a failure is a server error and comes while the file
/// is opened, read or written. Both answer at once.
pub proof fn lemma_early_end(config: UploadConfig, state: StateView, event: UploadEvent)
    requires
        !state.is_final(),
    ensures
        config.transition(state, event).0 matches StateView::Rejected { notice } ==> {
            &&& state is ReceivingPart
            &&& notice.spec_status() == Status::BadRequest
            &&& config.transition(state, event).1 == ActionView::Respond
        },
        config.transition(state, event).0 matches StateView::Failed { notice } ==> {
            &&& state is Streaming
            &&& notice.spec_status() == Status::ServerError
            &&& config.transition(state, event).1 == ActionView::Respond
        },
{
}

/// A confined name joined to the upload directory names an entry of it:
/// the path is the directory's segments and then one more, the name, which
/// is not empty and is neither `.` nor `..`. The same holds of the address
/// under which the file is served.
pub proof fn lemma_destination_one_below(config: UploadConfig, name: Seq<char>)
    requires
        is_confined(name),
    ensures
        segments(config.destination(name)) == segments(config.directory@).push(name),
        segments(config.location(name)) == segments(config.base_url@).push(name),
        segments(config.destination(name)).last() == name,
        name.len() > 0,
        !is_dot_name(name),
        config.destination(name) != config.directory@,
{
    lemma_joined_adds_one_segment(config.directory@, name);
    lemma_joined_adds_one_segment(config.base_url@, name);
    assert(config.destination(name).len() > config.directory@.len());
}

/// One step keeps an upload confined, and what it asks for touches only
/// entries of the upload directory, whatever the state.
pub proof fn lemma_transition_confined(config: UploadConfig, state: StateView, event: UploadEvent)
    ensures
        config.action_confined(config.transition(state, event).1),
        config.state_confined(state) ==> config.state_confined(config.transition(state, event).0),
{
    let next = config.transition(state, event);
    match next.1 {
        ActionView::Open { directory, path } => {
            lemma_open_needs_name(config, state, event);
            let name = next.0->Streaming_name;
            assert(is_confined(name) && path == config.destination(name));
        },
        _ => {},
    }
    if config.state_confined(state) {
        match next.0 {
            StateView::Committed { location } => {
                if !(state is Committed) {
                    lemma_commit_needs_stream(config, state, event);
                    let name = state->Streaming_name;
                    assert(is_confined(name) && location == config.location(name));
                }
            },
            _ => {},
        }
    }
}

/// Whatever is reported, in whatever order, and whatever names the parts
/// declare: an upload that starts idle or waiting for its part is confined
/// at every moment. A file that is being stored has a name that is not
/// empty, holds no separator and is neither `.` nor `..`.
pub proof fn lemma_run_confined(config: UploadConfig, state: StateView, events: Seq<UploadEvent>)
    requires
        config.state_confined(state),
    ensures
        config.state_confined(run(config, state, events)),
        config.state_confined(StateView::Idle),
        config.state_confined(StateView::ReceivingPart),
    decreases events.len(),
{
    if events.len() > 0 {
        lemma_transition_confined(config, state, events[0]);
        lemma_run_confined(config, config.transition(state, events[0]).0, events.drop_first());
    }
}

/// The state after a row of events, taken one by one.
pub open spec fn run(config: UploadConfig, state: StateView, events: Seq<UploadEvent>) -> StateView
    decreases events.len(),
{
    if events.len() == 0 {
        state
    } else {
        run(config, config.transition(state, events[0]).0, events.drop_first())
    }
}

/// Whatever is reported after a final state, the upload stays in it.
pub proof fn lemma_run_stays_final(config: UploadConfig, state: StateView, events: Seq<UploadEvent>)
    requires
        state.is_final(),
    ensures
        run(config, state, events) == state,
    decreases events.len(),
{
    if events.len() > 0 {
        lemma_final_absorbs(config, state, events[0]);
        lemma_run_stays_final(config, state, events.drop_first());
    }
}

/// A file that is being stored keeps its name: if the upload commits, it
/// commits at the location of that name.
pub proof fn lemma_run_keeps_name(
    config: UploadConfig,
    name: Seq<char>,
    step: StreamStep,
    events: Seq<UploadEvent>,
)
    ensures
        run(config, StateView::Streaming { name, step }, events) matches StateView::Committed {
            location,
        } ==> location == config.location(name),
    decreases events.len(),
{
    if events.len() > 0 {
        let state = StateView::Streaming { name, step };
        let next = config.transition(state, events[0]).0;
        match next {
            StateView::Streaming { name: kept, step: then } => {
                assert(kept == name);
                lemma_run_keeps_name(config, name, then, events.drop_first());
            },
            StateView::Idle | StateView::ReceivingPart => {
                assert(false);
            },
            _ => {
                lemma_run_stays_final(config, next, events.drop_first());
            },
        }
    }
}

/// An upload that waits for its part and then commits has stored the first
/// part that was reported, and no other: the file is served at the
/// configured address joined to the sanitized form of the name which that
/// part declared, and that form is confined.
pub proof fn lemma_run_commits_first_part(config: UploadConfig, events: Seq<UploadEvent>)
    requires
        run(config, StateView::ReceivingPart, events) is Committed,
    ensures
        exists|k: int|
            {
                &&& 0 <= k < events.len()
                &&& forall|j: int| 0 <= j < k ==> !(#[trigger] events[j] is Part)
                &&& #[trigger] events[k] matches UploadEvent::Part { filename: Some(declared) }
                &&& is_confined(sanitized(declared@, config.windows))
                &&& run(config, StateView::ReceivingPart, events) == (StateView::Committed {
                    location: config.location(sanitized(declared@, config.windows)),
                })
            },
    decreases events.len(),
{
    let start = StateView::ReceivingPart;
    assert(events.len() > 0);
    let rest = events.drop_first();
    let next = config.transition(start, events[0]).0;
    match next {
        StateView::ReceivingPart => {
            assert(!(events[0] is Part));
            lemma_run_commits_first_part(config, rest);
            let k = choose|k: int|
                {
                    &&& 0 <= k < rest.len()
                    &&& forall|j: int| 0 <= j < k ==> !(#[trigger] rest[j] is Part)
                    &&& #[trigger] rest[k] matches UploadEvent::Part { filename: Some(declared) }
                    &&& is_confined(sanitized(declared@, config.windows))
                    &&& run(config, start, rest) == (StateView::Committed {
                        location: config.location(sanitized(declared@, config.windows)),
                    })
                };
            assert(events[k + 1] == rest[k]);
            assert forall|j: int| 0 <= j < k + 1 implies !(#[trigger] events[j] is Part) by {
                if j > 0 {
                    assert(events[j] == rest[j - 1]);
                }
            }
        },
        StateView::Streaming { name, step } => {
            lemma_run_keeps_name(config, name, step, rest);
            assert(events[0] is Part);
        },
        StateView::Idle => {
            assert(false);
        },
        _ => {
            lemma_run_stays_final(config, next, rest);
            assert(false);
        },
    }
}

} // verus!
