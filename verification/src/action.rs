//! The steps that the load manager asks its host to carry out.
//!
//! The load manager decides; the host acts. Every transition hands back a
//! list of `Action`s. The host performs them in order inside the same update
//! section and stops at the first one that fails; what it has not reached is
//! dropped together with the state changes that the later steps stand for.

use crate::content::ContentType;
use crate::record::{Avm2LoaderData, Handle, MovieRef, ObjectRef};
use vstd::prelude::*;

verus! {

/// The errors that a load can end in.
#[derive(Clone, Copy, Debug, PartialEq, Eq, Structural)]
pub enum Error {
    /// The record was gone when the load came back.
    Cancelled,
    /// The fetch did not deliver a body.
    FetchError,
    /// The body announced itself as SWF and could not be parsed.
    InvalidSwf,
    /// The body announced itself as an image and could not be decoded.
    InvalidBitmap,
    /// The body could not be taken as sound.
    InvalidSound,
    /// Content of one type was required and another arrived.
    UnexpectedData(ContentType, ContentType),
    /// Script of the first dialect failed while it was being told.
    Avm1Error,
    /// Script of the second dialect failed while it was being told.
    Avm2Error,
}

/// What a legacy broadcaster is told. Each message goes out as
/// `broadcastMessage(name, clip, extras...)`.
#[derive(Clone, Copy, Debug, PartialEq, Eq, Structural)]
pub enum LegacyMessage {
    /// `onLoadStart`, without extras.
    OnLoadStart,
    /// `onLoadProgress`, with the bytes loaded and the bytes in all.
    OnLoadProgress { loaded: usize, total: usize },
    /// `onLoadComplete`, with the HTTP status.
    OnLoadComplete { http_status: u32 },
    /// `onLoadError`, with the code `LoadNeverCompleted`.
    OnLoadError,
    /// `onLoadInit`, without extras.
    OnLoadInit,
}

/// Why an `ioError` event is raised; it fixes the event's text and number.
#[derive(Clone, Copy, Debug, PartialEq, Eq, Structural)]
pub enum IoErrorKind {
    /// A stream could not be fetched: `Error #2032: Stream Error`, 2032.
    Stream,
    /// A movie could not be fetched: `Movie loader error`, 0.
    MovieLoader,
}

/// An event dispatched to an object of the second script dialect.
#[derive(Clone, Copy, Debug, PartialEq, Eq, Structural)]
pub enum Event {
    /// The bare event `open`.
    Open,
    /// A `progress` event with the bytes loaded and the bytes in all.
    Progress { loaded: usize, total: usize },
    /// The bare event `complete`.
    Complete,
    /// An `ioError` event.
    IoError(IoErrorKind),
}

/// The snapshot that an info object holds of the movie behind it.
#[allow(inconsistent_fields)]
#[derive(Clone, Copy, Debug, PartialEq, Eq, Structural)]
pub enum LoaderStream {
    /// The movie is parsed; its display side is not live yet.
    NotYetLoaded { movie: MovieRef, clip: Option<ObjectRef>, initialized: bool },
    /// The movie that `clip` now shows is fully live.
    Swf { clip: ObjectRef },
}

/// Which bytes a step hands to its target.
#[derive(Clone, Copy, Debug, PartialEq, Eq, Structural)]
pub enum Payload {
    /// The body that the fetch delivered.
    Body,
    /// No bytes at all.
    Empty,
}

/// The value that a `URLLoader` gets as its `data`.
#[derive(Clone, Copy, Debug, PartialEq, Eq, Structural)]
pub enum DataValue {
    /// A byte array object over the payload.
    ByteArray(Payload),
    /// A string read from the payload.
    Text(Payload),
    /// The undefined value.
    Undefined,
}

/// The argument of an `onData` call on a `LoadVars` object.
#[derive(Clone, Copy, Debug, PartialEq, Eq, Structural)]
pub enum OnDataArgument {
    /// The decoded text of the body.
    Text,
    /// The undefined value, which tells script that the load failed.
    Undefined,
}

/// The properties of a `LoadVars` object that record its byte counts.
#[derive(Clone, Copy, Debug, PartialEq, Eq, Structural)]
pub enum ByteCounter {
    /// `_bytesLoaded`
    BytesLoaded,
    /// `_bytesTotal`
    BytesTotal,
}

/// One step for the host to carry out.
#[allow(inconsistent_fields)]
#[derive(Clone, Copy, Debug, PartialEq, Eq, Structural)]
pub enum Action {
    /// Run the unload hook of the first script dialect on `clip`.
    Unload { clip: ObjectRef },
    /// Replace what `clip` shows: by `movie`, or by an empty movie.
    ReplaceWithMovie { clip: ObjectRef, movie: Option<MovieRef>, loader_info: Option<ObjectRef> },
    /// Tell a legacy broadcaster about `clip`.
    Broadcast { broadcaster: ObjectRef, clip: ObjectRef, message: LegacyMessage },
    /// Put a broadcast on the action queue instead of sending it now.
    QueueBroadcast { broadcaster: ObjectRef, clip: ObjectRef, message: LegacyMessage },
    /// Build `event` and dispatch it to `target`. Building can fail.
    Dispatch { target: ObjectRef, event: Event },
    /// Install `stream` on an info object.
    SetLoaderStream { loader_info: ObjectRef, stream: LoaderStream },
    /// Make sure the library knows `movie`, and bind it to the domain that
    /// `data` asks for: the application domain of its context, else a fresh
    /// movie domain under its default domain.
    BindDomain { movie: MovieRef, data: Option<Avm2LoaderData> },
    /// Advance the movie load under `handle` by one preload tick, bounded by
    /// `max_ops` operations and `max_millis` milliseconds.
    PreloadTick { handle: Handle, max_ops: u32, max_millis: u64 },
    /// Show a stub movie of `length` bytes in `clip` and place the decoded
    /// bitmap in it at `depth`.
    ShowImage { clip: ObjectRef, length: usize, depth: u16 },
    /// Run post-instantiation on `clip`.
    PostInstantiation { clip: ObjectRef },
    /// Catch the display object of `clip` up to the current frame.
    CatchUpToFrame { clip: ObjectRef },
    /// Make `clip` skip its next enter-frame.
    SkipNextEnterFrame { clip: ObjectRef },
    /// Insert `clip` at `index` into the loader container that the info
    /// object names, without going through `addChild`. Finding the container
    /// can fail.
    InsertIntoLoader { loader_info: ObjectRef, clip: ObjectRef, index: usize },
    /// Report to the load manager that the movie load under `handle` is
    /// complete.
    Complete { handle: Handle },
    /// Report to the load manager that the movie load under `handle` has
    /// failed.
    Fail { handle: Handle },
    /// Show the user that the root movie could not be downloaded.
    ShowRootDownloadFailed,
    /// Hand the header of the parsed root movie to whoever asked for it.
    ReportMetadata,
    /// Append the caller's parameters to the parsed root movie.
    AppendParameters,
    /// Make the parsed movie the root movie of the player.
    SetRootMovie,
    /// Set each decoded form variable, in order, as a string property of
    /// `object`. Setting a property can fail.
    SetVariables { object: ObjectRef },
    /// Queue a call of `onData` on `object`, run in the context of `clip`.
    QueueOnData { clip: ObjectRef, object: ObjectRef },
    /// Dispatch the clip event `Data` to `clip`.
    DispatchDataEvent { clip: ObjectRef },
    /// Set a byte counter of a `LoadVars` object. Setting can fail.
    SetByteCounter { object: ObjectRef, counter: ByteCounter, value: usize },
    /// Call `onHTTPStatus(status)` on `object` and ignore how it ends.
    CallOnHttpStatus { object: ObjectRef, status: u16 },
    /// Call `onData(argument)` on `object` and ignore how it ends.
    CallOnData { object: ObjectRef, argument: OnDataArgument },
    /// Set the `data` property of a `URLLoader`.
    SetData { target: ObjectRef, value: DataValue },
    /// Call `onLoad(success)` on a sound object and ignore how it ends.
    CallOnLoad { object: ObjectRef, success: bool },
    /// Start playing a sound object. Starting can fail.
    StartSound { object: ObjectRef },
    /// Register the body as MP3 with the audio backend and attach the sound
    /// to `object`. Registering can fail.
    RegisterSound { object: ObjectRef },
    /// Append the body to the buffer of `stream`.
    AppendToStream { stream: ObjectRef },
    /// Tell `stream` that its fetch failed.
    ReportStreamError { stream: ObjectRef },
}

impl LegacyMessage {
    /// The name under which each message is broadcast.
    pub open spec fn name_of(self) -> Seq<char> {
        match self {
            LegacyMessage::OnLoadStart => "onLoadStart"@,
            LegacyMessage::OnLoadProgress { .. } => "onLoadProgress"@,
            LegacyMessage::OnLoadComplete { .. } => "onLoadComplete"@,
            LegacyMessage::OnLoadError => "onLoadError"@,
            LegacyMessage::OnLoadInit => "onLoadInit"@,
        }
    }

    /// The name under which the message is broadcast.
    pub fn name(self) -> (s: &'static str)
        ensures
            s@ == self.name_of(),
    {
        match self {
            LegacyMessage::OnLoadStart => "onLoadStart",
            LegacyMessage::OnLoadProgress { .. } => "onLoadProgress",
            LegacyMessage::OnLoadComplete { .. } => "onLoadComplete",
            LegacyMessage::OnLoadError => "onLoadError",
            LegacyMessage::OnLoadInit => "onLoadInit",
        }
    }

    /// The error code that goes out with `onLoadError`.
    pub fn error_code() -> (s: &'static str)
        ensures
            s@ == "LoadNeverCompleted"@,
    {
        "LoadNeverCompleted"
    }
}

impl IoErrorKind {
    /// The text of each kind of `ioError`.
    pub open spec fn message_of(self) -> Seq<char> {
        match self {
            IoErrorKind::Stream => "Error #2032: Stream Error"@,
            IoErrorKind::MovieLoader => "Movie loader error"@,
        }
    }

    /// The number of each kind of `ioError`.
    pub open spec fn code_of(self) -> u32 {
        match self {
            IoErrorKind::Stream => 2032,
            IoErrorKind::MovieLoader => 0,
        }
    }

    /// The text of the `ioError` event.
    pub fn message(self) -> (s: &'static str)
        ensures
            s@ == self.message_of(),
    {
        match self {
            IoErrorKind::Stream => "Error #2032: Stream Error",
            IoErrorKind::MovieLoader => "Movie loader error",
        }
    }

    /// The number of the `ioError` event.
    pub fn code(self) -> (n: u32)
        ensures
            n == self.code_of(),
    {
        match self {
            IoErrorKind::Stream => 2032,
            IoErrorKind::MovieLoader => 0,
        }
    }
}

impl Event {
    /// The type name of each event.
    pub open spec fn name_of(self) -> Seq<char> {
        match self {
            Event::Open => "open"@,
            Event::Progress { .. } => "progress"@,
            Event::Complete => "complete"@,
            Event::IoError(_) => "ioError"@,
        }
    }

    /// Whether an event of this kind bubbles: none that a load dispatches
    /// does.
    pub open spec fn bubbles_of(self) -> bool {
        false
    }

    /// Whether an event of this kind can be cancelled: none that a load
    /// dispatches can.
    pub open spec fn cancelable_of(self) -> bool {
        false
    }

    /// Whether the event bubbles.
    pub fn bubbles(self) -> (b: bool)
        ensures
            b == self.bubbles_of(),
    {
        false
    }

    /// Whether the event can be cancelled.
    pub fn cancelable(self) -> (c: bool)
        ensures
            c == self.cancelable_of(),
    {
        false
    }

    /// The type name of the event.
    pub fn name(self) -> (s: &'static str)
        ensures
            s@ == self.name_of(),
    {
        match self {
            Event::Open => "open",
            Event::Progress { .. } => "progress",
            Event::Complete => "complete",
            Event::IoError(_) => "ioError",
        }
    }
}

impl ByteCounter {
    /// The property name of each counter.
    pub open spec fn name_of(self) -> Seq<char> {
        match self {
            ByteCounter::BytesLoaded => "_bytesLoaded"@,
            ByteCounter::BytesTotal => "_bytesTotal"@,
        }
    }

    /// The property name of the counter.
    pub fn name(self) -> (s: &'static str)
        ensures
            s@ == self.name_of(),
    {
        match self {
            ByteCounter::BytesLoaded => "_bytesLoaded",
            ByteCounter::BytesTotal => "_bytesTotal",
        }
    }
}

/// The URL under which a movie loaded from bytes in memory is known.
pub fn sentinel_url() -> (s: &'static str)
    ensures
        s@ == "file:///"@,
{
    "file:///"
}

impl Action {
    /// The method or property of a script object through which a step goes,
    /// for the steps that call or set one by name: broadcasts go through
    /// `broadcastMessage`, the calls through `onData`, `onHTTPStatus` and
    /// `onLoad`, the byte counters through their properties, and the data of
    /// a `URLLoader` through `data`.
    pub open spec fn script_name_of(self) -> Option<Seq<char>> {
        match self {
            Action::Broadcast { .. } => Some("broadcastMessage"@),
            Action::QueueBroadcast { .. } => Some("broadcastMessage"@),
            Action::QueueOnData { .. } => Some("onData"@),
            Action::CallOnData { .. } => Some("onData"@),
            Action::CallOnHttpStatus { .. } => Some("onHTTPStatus"@),
            Action::CallOnLoad { .. } => Some("onLoad"@),
            Action::SetByteCounter { counter, .. } => Some(counter.name_of()),
            Action::SetData { .. } => Some("data"@),
            _ => None,
        }
    }

    /// The method or property of a script object through which the step
    /// goes, if it goes through one by name.
    pub fn script_name(self) -> (name: Option<&'static str>)
        ensures
            match name {
                Some(s) => self.script_name_of() == Some(s@),
                None => self.script_name_of().is_none(),
            },
    {
        match self {
            Action::Broadcast { .. } => Some("broadcastMessage"),
            Action::QueueBroadcast { .. } => Some("broadcastMessage"),
            Action::QueueOnData { .. } => Some("onData"),
            Action::CallOnData { .. } => Some("onData"),
            Action::CallOnHttpStatus { .. } => Some("onHTTPStatus"),
            Action::CallOnLoad { .. } => Some("onLoad"),
            Action::SetByteCounter { counter, .. } => Some(counter.name()),
            Action::SetData { .. } => Some("data"),
            _ => None,
        }
    }

    /// The error in which a load ends where the host fails at a step, or
    /// `None` for a step that cannot fail. Events of the second script
    /// dialect can fail to be built, and the loader container can fail to be
    /// found; properties and playback of the first dialect can throw; the
    /// audio backend can refuse a sound.
    pub open spec fn failure_of(self) -> Option<Error> {
        match self {
            Action::Dispatch { .. } => Some(Error::Avm2Error),
            Action::InsertIntoLoader { .. } => Some(Error::Avm2Error),
            Action::SetVariables { .. } => Some(Error::Avm1Error),
            Action::SetByteCounter { .. } => Some(Error::Avm1Error),
            Action::StartSound { .. } => Some(Error::Avm1Error),
            Action::RegisterSound { .. } => Some(Error::InvalidSound),
            _ => None,
        }
    }

    /// The error in which the load ends where the host fails at this step.
    pub fn failure(self) -> (error: Option<Error>)
        ensures
            error == self.failure_of(),
    {
        match self {
            Action::Dispatch { .. } => Some(Error::Avm2Error),
            Action::InsertIntoLoader { .. } => Some(Error::Avm2Error),
            Action::SetVariables { .. } => Some(Error::Avm1Error),
            Action::SetByteCounter { .. } => Some(Error::Avm1Error),
            Action::StartSound { .. } => Some(Error::Avm1Error),
            Action::RegisterSound { .. } => Some(Error::InvalidSound),
            _ => None,
        }
    }
}

/// What the host made of the body of a movie load before it reports it.
#[derive(Clone, Copy, Debug, PartialEq, Eq, Structural)]
pub enum Decoded {
    /// The body was SWF and parsed into this movie.
    Movie(MovieRef),
    /// The body was an image and decoded into a bitmap.
    Bitmap,
    /// Parsing or decoding failed, or there was nothing to decode.
    Nothing,
}

/// The answer to an event that can both ask for steps and end the load in an
/// error: the host performs the steps and then, where `error` is there, ends
/// the load with it.
pub struct Reply {
    pub steps: Vec<Action>,
    pub error: Option<Error>,
}

} // verus!
