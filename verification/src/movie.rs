//! The state machine of a movie load, and the events it gives rise to.
//!
//! A movie load starts `Pending`. When SWF bytes arrive it becomes `Parsing`
//! and keeps the parsed movie; preload ticks then advance it until the clip
//! reports that it is done, and the load becomes `Succeeded`. Images and
//! unrecognised bodies have nothing to preload and succeed at once. A fetch
//! that fails makes the load `Failed`.

use crate::action::{
    Action, Decoded, Error, Event, IoErrorKind, LegacyMessage, LoaderStream, Reply,
};
use crate::content::{ContentType, MovieBody};
use crate::manager::LoadManager;
use crate::record::{
    Avm2LoaderData, Handle, Loader, LoaderStatus, MovieLoaderEventHandler, MovieRef, ObjectRef,
};
use vstd::prelude::*;

verus! {

/// The operation budget of the preload tick that follows the arrival of SWF
/// bytes, so that a tiny movie is loaded within the same update section.
pub const IMMEDIATE_PRELOAD_OPS: u32 = 10000;

/// The time budget, in milliseconds, of that same tick.
pub const IMMEDIATE_PRELOAD_MILLIS: u64 = 1;

/// The depth at which a loaded image is placed in its clip.
pub const IMAGE_DEPTH: u16 = 1;

impl LoaderStatus {
    /// Whether a load that shows `self` may later show `later`.
    ///
    /// The legal paths are `Pending, Parsing, Succeeded` and
    /// `Pending, Failed`; a later status is one further along the path that
    /// the load is on, or the same one.
    pub open spec fn leads_to(self, later: LoaderStatus) -> bool {
        match self {
            LoaderStatus::Pending => true,
            LoaderStatus::Parsing => later == LoaderStatus::Parsing || later
                == LoaderStatus::Succeeded,
            LoaderStatus::Succeeded => later == LoaderStatus::Succeeded,
            LoaderStatus::Failed => later == LoaderStatus::Failed,
        }
    }

    /// Whether the load has come to its end, one way or the other.
    pub open spec fn is_terminal(self) -> bool {
        self == LoaderStatus::Succeeded || self == LoaderStatus::Failed
    }
}

impl Loader {
    /// The same movie record with another status.
    pub open spec fn with_status(self, status: LoaderStatus) -> Loader {
        match self {
            Loader::Movie { self_handle, target_clip, event_handler, movie, avm2_data, .. } => {
                Loader::Movie {
                    self_handle,
                    target_clip,
                    event_handler,
                    loader_status: status,
                    movie,
                    avm2_data,
                }
            },
            _ => self,
        }
    }

    /// The same movie record, now parsing `parsed`.
    pub open spec fn parsing(self, parsed: MovieRef) -> Loader {
        match self {
            Loader::Movie { self_handle, target_clip, event_handler, avm2_data, .. } => {
                Loader::Movie {
                    self_handle,
                    target_clip,
                    event_handler,
                    loader_status: LoaderStatus::Parsing,
                    movie: Some(parsed),
                    avm2_data,
                }
            },
            _ => self,
        }
    }

    /// Whether the record agrees with itself: a movie that is `Parsing` has
    /// its parsed movie at hand, and only a movie that is `Parsing` or
    /// `Succeeded` has one.
    pub open spec fn coherent(self) -> bool {
        match self {
            Loader::Movie { loader_status, movie, .. } => {
                &&& loader_status == LoaderStatus::Parsing ==> movie.is_some()
                &&& movie.is_some() ==> loader_status == LoaderStatus::Parsing || loader_status
                    == LoaderStatus::Succeeded
            },
            _ => true,
        }
    }
}

/// The step that tells a sink that the fetch has begun.
pub open spec fn start_steps(clip: ObjectRef, sink: Option<MovieLoaderEventHandler>) -> Seq<
    Action,
> {
    match sink {
        Some(MovieLoaderEventHandler::Avm1Broadcast(broadcaster)) => seq![
            Action::Broadcast { broadcaster, clip, message: LegacyMessage::OnLoadStart },
        ],
        Some(MovieLoaderEventHandler::Avm2LoaderInfo(loader_info)) => seq![
            Action::Dispatch { target: loader_info, event: Event::Open },
        ],
        None => seq![],
    }
}

/// The step that tells a sink how many bytes are there.
pub open spec fn progress_steps(
    clip: ObjectRef,
    sink: Option<MovieLoaderEventHandler>,
    loaded: usize,
    total: usize,
) -> Seq<Action> {
    match sink {
        Some(MovieLoaderEventHandler::Avm1Broadcast(broadcaster)) => seq![
            Action::Broadcast {
                broadcaster,
                clip,
                message: LegacyMessage::OnLoadProgress { loaded, total },
            },
        ],
        Some(MovieLoaderEventHandler::Avm2LoaderInfo(loader_info)) => seq![
            Action::Dispatch { target: loader_info, event: Event::Progress { loaded, total } },
        ],
        None => seq![],
    }
}

/// The step that tells a sink that the load is complete. A legacy
/// broadcaster hears `onLoadComplete` with status 0. An info object gets the
/// live stream installed; its script-visible `complete` fires when the clip
/// leaves its first frame.
pub open spec fn complete_steps(clip: ObjectRef, sink: Option<MovieLoaderEventHandler>) -> Seq<
    Action,
> {
    match sink {
        Some(MovieLoaderEventHandler::Avm1Broadcast(broadcaster)) => seq![
            Action::Broadcast {
                broadcaster,
                clip,
                message: LegacyMessage::OnLoadComplete { http_status: 0 },
            },
        ],
        Some(MovieLoaderEventHandler::Avm2LoaderInfo(loader_info)) => seq![
            Action::SetLoaderStream { loader_info, stream: LoaderStream::Swf { clip } },
        ],
        None => seq![],
    }
}

/// The steps that tell a sink that the fetch failed, and then mark the load
/// as failed.
pub open spec fn error_steps(
    handle: Handle,
    clip: ObjectRef,
    sink: Option<MovieLoaderEventHandler>,
) -> Seq<Action> {
    (match sink {
        Some(MovieLoaderEventHandler::Avm1Broadcast(broadcaster)) => seq![
            Action::Broadcast { broadcaster, clip, message: LegacyMessage::OnLoadError },
        ],
        Some(MovieLoaderEventHandler::Avm2LoaderInfo(loader_info)) => seq![
            Action::Dispatch {
                target: loader_info,
                event: Event::IoError(IoErrorKind::MovieLoader),
            },
        ],
        None => seq![],
    }).push(Action::Fail { handle })
}

/// The info object behind a sink, if the sink is one.
pub open spec fn info_object(sink: Option<MovieLoaderEventHandler>) -> Option<ObjectRef> {
    match sink {
        Some(MovieLoaderEventHandler::Avm2LoaderInfo(loader_info)) => Some(loader_info),
        _ => None,
    }
}

/// Executable form of `info_object`.
pub fn info_object_of(sink: Option<MovieLoaderEventHandler>) -> (r: Option<ObjectRef>)
    ensures
        r == info_object(sink),
{
    match sink {
        Some(MovieLoaderEventHandler::Avm2LoaderInfo(loader_info)) => Some(loader_info),
        _ => None,
    }
}

/// The steps that follow the arrival of a parsed SWF: an info object gets
/// a snapshot of the movie, so that its byte total is right from now on, and
/// an initial `progress(0, length)`; the movie is bound to its domain and
/// attached to the clip; one preload tick with a small budget follows.
pub open spec fn swf_steps(
    handle: Handle,
    clip: ObjectRef,
    sink: Option<MovieLoaderEventHandler>,
    avm2_data: Option<Avm2LoaderData>,
    movie: MovieRef,
    length: usize,
    is_movie_clip: bool,
) -> Seq<Action> {
    (match info_object(sink) {
        Some(loader_info) => seq![
            Action::SetLoaderStream {
                loader_info,
                stream: LoaderStream::NotYetLoaded {
                    movie,
                    clip: Some(clip),
                    initialized: false,
                },
            },
            Action::Dispatch {
                target: loader_info,
                event: Event::Progress { loaded: 0, total: length },
            },
        ],
        None => seq![],
    }) + seq![Action::BindDomain { movie, data: avm2_data }] + (if is_movie_clip {
        seq![
            Action::ReplaceWithMovie {
                clip,
                movie: Some(movie),
                loader_info: info_object(sink),
            },
        ]
    } else {
        seq![]
    }) + seq![
        Action::PreloadTick {
            handle,
            max_ops: IMMEDIATE_PRELOAD_OPS,
            max_millis: IMMEDIATE_PRELOAD_MILLIS,
        },
    ]
}

/// The initial `progress(0, length)` that only an info object gets.
pub open spec fn initial_progress_steps(sink: Option<MovieLoaderEventHandler>, length: usize) -> Seq<
    Action,
> {
    match info_object(sink) {
        Some(loader_info) => seq![
            Action::Dispatch {
                target: loader_info,
                event: Event::Progress { loaded: 0, total: length },
            },
        ],
        None => seq![],
    }
}

/// The steps that follow the arrival of a decoded image: the initial
/// progress for an info object, the bitmap at depth 1 of the clip, then
/// progress and completion with the full length.
pub open spec fn image_steps(
    handle: Handle,
    clip: ObjectRef,
    sink: Option<MovieLoaderEventHandler>,
    length: usize,
    is_movie_clip: bool,
) -> Seq<Action> {
    initial_progress_steps(sink, length) + (if is_movie_clip {
        seq![Action::ShowImage { clip, length, depth: IMAGE_DEPTH }]
    } else {
        seq![]
    }) + progress_steps(clip, sink, length, length) + seq![Action::Complete { handle }]
}

/// The steps that follow the arrival of bytes that nothing recognises: a
/// length of zero is reported and the load completes, so that script sees
/// the load end.
pub open spec fn unknown_steps(
    handle: Handle,
    clip: ObjectRef,
    sink: Option<MovieLoaderEventHandler>,
) -> Seq<Action> {
    progress_steps(clip, sink, 0, 0) + seq![Action::Complete { handle }]
}

/// The steps of the clip's side of a finished preload, which end in the
/// report that the load is complete.
///
/// The info object gets the real movie first. The clip is instantiated and
/// caught up while it still has no parent, and is made to lag the timeline
/// by one frame; only then is it put into the loader container, at index 0.
pub open spec fn finish_steps(
    handle: Handle,
    clip: ObjectRef,
    sink: Option<MovieLoaderEventHandler>,
    movie: MovieRef,
) -> Seq<Action> {
    (match info_object(sink) {
        Some(loader_info) => seq![
            Action::SetLoaderStream {
                loader_info,
                stream: LoaderStream::NotYetLoaded {
                    movie,
                    clip: Some(clip),
                    initialized: false,
                },
            },
        ],
        None => seq![],
    }) + seq![
        Action::PostInstantiation { clip },
        Action::CatchUpToFrame { clip },
        Action::SkipNextEnterFrame { clip },
    ] + (match info_object(sink) {
        Some(loader_info) => seq![Action::InsertIntoLoader { loader_info, clip, index: 0 }],
        None => seq![],
    }) + seq![Action::Complete { handle }]
}

/// The steps of one preload tick on which the clip reported `loaded` of
/// `total` compressed bytes.
pub open spec fn tick_steps(
    handle: Handle,
    clip: ObjectRef,
    sink: Option<MovieLoaderEventHandler>,
    movie: MovieRef,
    finished: bool,
    loaded: usize,
    total: usize,
) -> Seq<Action> {
    progress_steps(clip, sink, loaded, total) + (if finished {
        finish_steps(handle, clip, sink, movie)
    } else {
        seq![]
    })
}

/// The steps that open a movie load, before any byte is there: a movie clip
/// is unloaded through the hook of the first script dialect, where the
/// player runs it, and reset to an empty movie. A load from a URL into a
/// clip other than the root then tells its sink that it has started; a load
/// from bytes in memory, or one that replaces the root movie, does not.
pub open spec fn open_steps(
    clip: ObjectRef,
    sink: Option<MovieLoaderEventHandler>,
    is_movie_clip: bool,
    is_root: bool,
    avm2: bool,
    in_memory: bool,
) -> Seq<Action> {
    (if is_movie_clip && !avm2 {
        seq![Action::Unload { clip }]
    } else {
        seq![]
    }) + (if is_movie_clip {
        seq![Action::ReplaceWithMovie { clip, movie: None, loader_info: None }]
    } else {
        seq![]
    }) + (if in_memory || is_root {
        seq![]
    } else {
        start_steps(clip, sink)
    })
}

/// Whether the content type is one of the still images.
pub open spec fn is_image(content: ContentType) -> bool {
    content == ContentType::Jpeg || content == ContentType::Png || content == ContentType::Gif
}

/// The steps that the arrival of a body asks for.
///
/// SWF that parsed takes the SWF path and an image that decoded the image
/// path. Where parsing or decoding failed the sink is told of the error and
/// the load fails; an image has by then sent its initial progress. Unknown
/// content completes with a length of zero.
pub open spec fn data_steps(
    handle: Handle,
    record: Loader,
    content: ContentType,
    length: usize,
    decoded: Decoded,
    is_movie_clip: bool,
) -> Seq<Action> {
    let clip = record->target_clip;
    let sink = record->event_handler;
    if content == ContentType::Swf {
        match decoded {
            Decoded::Movie(movie) => swf_steps(
                handle,
                clip,
                sink,
                record->avm2_data,
                movie,
                length,
                is_movie_clip,
            ),
            _ => error_steps(handle, clip, sink),
        }
    } else if is_image(content) {
        if decoded == Decoded::Bitmap {
            image_steps(handle, clip, sink, length, is_movie_clip)
        } else {
            initial_progress_steps(sink, length) + error_steps(handle, clip, sink)
        }
    } else {
        unknown_steps(handle, clip, sink)
    }
}

/// The error that the arrival of a body ends in, if any.
pub open spec fn data_error(content: ContentType, decoded: Decoded) -> Option<Error> {
    if content == ContentType::Swf && !(decoded is Movie) {
        Some(Error::InvalidSwf)
    } else if is_image(content) && decoded != Decoded::Bitmap {
        Some(Error::InvalidBitmap)
    } else {
        None
    }
}

/// The record after the arrival of a body: SWF that parsed makes the load
/// `Parsing`; anything else leaves the record as it is.
pub open spec fn data_record(record: Loader, content: ContentType, decoded: Decoded) -> Loader {
    if content == ContentType::Swf && decoded is Movie {
        record.parsing(decoded->Movie_0)
    } else {
        record
    }
}

/// The steps with which a fetched body replaces the root movie: SWF that
/// parsed becomes the root movie, without a word to the sink; anything else
/// is an error that the sink hears of.
pub open spec fn root_steps(
    handle: Handle,
    record: Loader,
    content: ContentType,
    decoded: Decoded,
) -> Seq<Action> {
    if content == ContentType::Swf && decoded is Movie {
        seq![Action::SetRootMovie]
    } else {
        error_steps(handle, record->target_clip, record->event_handler)
    }
}

/// The error in which replacing the root movie ends, if any.
pub open spec fn root_error(content: ContentType, decoded: Decoded) -> Option<Error> {
    if content != ContentType::Swf {
        Some(Error::UnexpectedData(ContentType::Swf, content))
    } else if !(decoded is Movie) {
        Some(Error::InvalidSwf)
    } else {
        None
    }
}

/// What a clip made of one preload tick.
#[derive(Clone, Copy, Debug, PartialEq, Eq, Structural)]
pub enum PreloadReport {
    /// The target is no movie clip and cannot preload.
    NotAMovieClip,
    /// The clip ran its preload; it holds `loaded` of `total` compressed
    /// bytes and has or has not finished.
    Preloaded { finished: bool, loaded: usize, total: usize },
}

/// The outcome of one preload tick of one movie load.
pub struct PreloadOutcome {
    pub steps: Vec<Action>,
    pub finished: bool,
}

fn push_start(steps: &mut Vec<Action>, clip: ObjectRef, sink: Option<MovieLoaderEventHandler>)
    ensures
        final(steps)@ == old(steps)@ + start_steps(clip, sink),
{
    match sink {
        Some(MovieLoaderEventHandler::Avm1Broadcast(broadcaster)) => {
            steps.push(Action::Broadcast { broadcaster, clip, message: LegacyMessage::OnLoadStart });
        },
        Some(MovieLoaderEventHandler::Avm2LoaderInfo(loader_info)) => {
            steps.push(Action::Dispatch { target: loader_info, event: Event::Open });
        },
        None => {},
    }
    assert(steps@ =~= old(steps)@ + start_steps(clip, sink));
}

fn push_progress(
    steps: &mut Vec<Action>,
    clip: ObjectRef,
    sink: Option<MovieLoaderEventHandler>,
    loaded: usize,
    total: usize,
)
    ensures
        final(steps)@ == old(steps)@ + progress_steps(clip, sink, loaded, total),
{
    match sink {
        Some(MovieLoaderEventHandler::Avm1Broadcast(broadcaster)) => {
            steps.push(
                Action::Broadcast {
                    broadcaster,
                    clip,
                    message: LegacyMessage::OnLoadProgress { loaded, total },
                },
            );
        },
        Some(MovieLoaderEventHandler::Avm2LoaderInfo(loader_info)) => {
            steps.push(
                Action::Dispatch { target: loader_info, event: Event::Progress { loaded, total } },
            );
        },
        None => {},
    }
    assert(steps@ =~= old(steps)@ + progress_steps(clip, sink, loaded, total));
}

fn push_complete(steps: &mut Vec<Action>, clip: ObjectRef, sink: Option<MovieLoaderEventHandler>)
    ensures
        final(steps)@ == old(steps)@ + complete_steps(clip, sink),
{
    match sink {
        Some(MovieLoaderEventHandler::Avm1Broadcast(broadcaster)) => {
            steps.push(
                Action::Broadcast {
                    broadcaster,
                    clip,
                    message: LegacyMessage::OnLoadComplete { http_status: 0 },
                },
            );
        },
        Some(MovieLoaderEventHandler::Avm2LoaderInfo(loader_info)) => {
            steps.push(Action::SetLoaderStream { loader_info, stream: LoaderStream::Swf { clip } });
        },
        None => {},
    }
    assert(steps@ =~= old(steps)@ + complete_steps(clip, sink));
}

fn push_error(
    steps: &mut Vec<Action>,
    handle: Handle,
    clip: ObjectRef,
    sink: Option<MovieLoaderEventHandler>,
)
    ensures
        final(steps)@ == old(steps)@ + error_steps(handle, clip, sink),
{
    match sink {
        Some(MovieLoaderEventHandler::Avm1Broadcast(broadcaster)) => {
            steps.push(Action::Broadcast { broadcaster, clip, message: LegacyMessage::OnLoadError });
        },
        Some(MovieLoaderEventHandler::Avm2LoaderInfo(loader_info)) => {
            steps.push(
                Action::Dispatch {
                    target: loader_info,
                    event: Event::IoError(IoErrorKind::MovieLoader),
                },
            );
        },
        None => {},
    }
    steps.push(Action::Fail { handle });
    assert(steps@ =~= old(steps)@ + error_steps(handle, clip, sink));
}

fn push_initial_progress(
    steps: &mut Vec<Action>,
    sink: Option<MovieLoaderEventHandler>,
    length: usize,
)
    ensures
        final(steps)@ == old(steps)@ + initial_progress_steps(sink, length),
{
    match info_object_of(sink) {
        Some(loader_info) => {
            steps.push(
                Action::Dispatch {
                    target: loader_info,
                    event: Event::Progress { loaded: 0, total: length },
                },
            );
        },
        None => {},
    }
    assert(steps@ =~= old(steps)@ + initial_progress_steps(sink, length));
}

impl LoadManager {
    /// Whether `handle` finds a movie load or nothing at all. The movie
    /// transitions are only ever reached for such handles: a record of
    /// another kind under the handle of a movie load means that the table
    /// and the load were put together wrongly.
    pub open spec fn movie_or_gone(&self, handle: Handle) -> bool {
        self.records().contains_key(handle) ==> self.records()[handle] is Movie
    }

    /// Whether `handle` finds a movie load that is still `Pending`, or
    /// nothing at all. The outcome of a fetch is taken only for such a load:
    /// it arrives once, before anything has been parsed.
    pub open spec fn pending_or_gone(&self, handle: Handle) -> bool {
        self.records().contains_key(handle) ==> self.records()[handle] is Movie
            && self.records()[handle]->loader_status == LoaderStatus::Pending
    }

    /// Whether the table can take the call that `step` stands for: a load
    /// can be reported complete, or ticked, unless it has failed, and
    /// reported failed unless it has parsed. Every other step is the host's
    /// alone.
    pub open spec fn accepts(&self, step: Action) -> bool {
        match step {
            Action::Complete { handle } => self.may_become(handle, LoaderStatus::Succeeded),
            Action::PreloadTick { handle, .. } => self.may_become(
                handle,
                LoaderStatus::Succeeded,
            ),
            Action::Fail { handle } => self.may_become(handle, LoaderStatus::Failed),
            _ => true,
        }
    }

    /// Whether the table can take every call that `steps` stand for.
    pub open spec fn accepts_all(&self, steps: Seq<Action>) -> bool {
        forall|i: int| 0 <= i < steps.len() ==> self.accepts(#[trigger] steps[i])
    }

    /// As `movie_or_gone`, and the movie load has a status from which it may
    /// still go on to `status`.
    pub open spec fn may_become(&self, handle: Handle, status: LoaderStatus) -> bool {
        self.records().contains_key(handle) ==> (self.records()[handle] matches Loader::Movie {
            loader_status,
            ..
        } && loader_status.leads_to(status))
    }


    /// Puts `loader` in the place of the record under `handle`.
    pub(crate) fn replace_record(&mut self, handle: Handle, loader: Loader)
        requires
            old(self).wf(),
            old(self).records().contains_key(handle),
        ensures
            final(self).wf(),
            final(self).removals() == old(self).removals(),
            final(self).records() == old(self).records().insert(handle, loader),
    {
        match self.get_loader_mut(handle) {
            Some(slot) => {
                *slot = loader;
            },
            None => {},
        }
    }
}

impl Loader {
    /// Report a movie loader start event to script code.
    ///
    /// A legacy broadcaster hears `onLoadStart`, an info object gets `open`,
    /// and a load without a sink tells nobody. A record that is gone yields
    /// `Cancelled`.
    pub fn movie_loader_start(handle: Handle, manager: &LoadManager) -> (r: Result<Vec<Action>, Error>)
        requires
            manager.movie_or_gone(handle),
        ensures
            !manager.records().contains_key(handle) ==> r == Err::<Vec<Action>, Error>(
                Error::Cancelled,
            ),
            manager.records().contains_key(handle) ==> r is Ok && r->Ok_0@ == start_steps(
                manager.records()[handle]->target_clip,
                manager.records()[handle]->event_handler,
            ),
    {
        match manager.record(handle) {
            Some(Loader::Movie { target_clip, event_handler, .. }) => {
                let mut steps: Vec<Action> = Vec::new();
                push_start(&mut steps, target_clip, event_handler);
                Ok(steps)
            },
            _ => Err(Error::Cancelled),
        }
    }

    /// Report a movie loader progress event to script code.
    ///
    /// The current and total length are always reported as compressed
    /// lengths. A record that is gone yields `Cancelled`.
    pub fn movie_loader_progress(handle: Handle, manager: &LoadManager, cur_len: usize, total_len: usize) -> (r:
        Result<Vec<Action>, Error>)
        requires
            manager.movie_or_gone(handle),
        ensures
            !manager.records().contains_key(handle) ==> r == Err::<Vec<Action>, Error>(
                Error::Cancelled,
            ),
            manager.records().contains_key(handle) ==> r is Ok && r->Ok_0@ == progress_steps(
                manager.records()[handle]->target_clip,
                manager.records()[handle]->event_handler,
                cur_len,
                total_len,
            ),
    {
        match manager.record(handle) {
            Some(Loader::Movie { target_clip, event_handler, .. }) => {
                let mut steps: Vec<Action> = Vec::new();
                push_progress(&mut steps, target_clip, event_handler, cur_len, total_len);
                Ok(steps)
            },
            _ => Err(Error::Cancelled),
        }
    }
    /// Opens a movie load from a URL, in the update section that precedes
    /// the fetch. The host says what the target clip is: a movie clip or
    /// not, the root clip of the stage or not, and whether the player runs
    /// the second script dialect.
    pub fn movie_loader(
        handle: Handle,
        manager: &LoadManager,
        is_movie_clip: bool,
        is_root: bool,
        avm2: bool,
    ) -> (r: Result<Vec<Action>, Error>)
        requires
            manager.movie_or_gone(handle),
        ensures
            !manager.records().contains_key(handle) ==> r == Err::<Vec<Action>, Error>(
                Error::Cancelled,
            ),
            manager.records().contains_key(handle) ==> r is Ok && r->Ok_0@ == open_steps(
                manager.records()[handle]->target_clip,
                manager.records()[handle]->event_handler,
                is_movie_clip,
                is_root,
                avm2,
                false,
            ),
    {
        Loader::open_movie_load(handle, manager, is_movie_clip, is_root, avm2, false)
    }

    /// Opens a movie load from bytes in memory. It differs from a load from
    /// a URL in that the sink hears of no start.
    pub fn movie_loader_bytes(
        handle: Handle,
        manager: &LoadManager,
        is_movie_clip: bool,
        is_root: bool,
        avm2: bool,
    ) -> (r: Result<Vec<Action>, Error>)
        requires
            manager.movie_or_gone(handle),
        ensures
            !manager.records().contains_key(handle) ==> r == Err::<Vec<Action>, Error>(
                Error::Cancelled,
            ),
            manager.records().contains_key(handle) ==> r is Ok && r->Ok_0@ == open_steps(
                manager.records()[handle]->target_clip,
                manager.records()[handle]->event_handler,
                is_movie_clip,
                is_root,
                avm2,
                true,
            ),
    {
        Loader::open_movie_load(handle, manager, is_movie_clip, is_root, avm2, true)
    }

    fn open_movie_load(
        handle: Handle,
        manager: &LoadManager,
        is_movie_clip: bool,
        is_root: bool,
        avm2: bool,
        in_memory: bool,
    ) -> (r: Result<Vec<Action>, Error>)
        requires
            manager.movie_or_gone(handle),
        ensures
            !manager.records().contains_key(handle) ==> r == Err::<Vec<Action>, Error>(
                Error::Cancelled,
            ),
            manager.records().contains_key(handle) ==> r is Ok && r->Ok_0@ == open_steps(
                manager.records()[handle]->target_clip,
                manager.records()[handle]->event_handler,
                is_movie_clip,
                is_root,
                avm2,
                in_memory,
            ),
    {
        match manager.record(handle) {
            Some(Loader::Movie { target_clip, event_handler, .. }) => {
                let mut steps: Vec<Action> = Vec::new();
                if is_movie_clip {
                    if !avm2 {
                        steps.push(Action::Unload { clip: target_clip });
                    }
                    steps.push(
                        Action::ReplaceWithMovie {
                            clip: target_clip,
                            movie: None,
                            loader_info: None,
                        },
                    );
                }
                if !in_memory && !is_root {
                    push_start(&mut steps, target_clip, event_handler);
                }
                assert(steps@ =~= open_steps(
                    target_clip,
                    event_handler,
                    is_movie_clip,
                    is_root,
                    avm2,
                    in_memory,
                ));
                Ok(steps)
            },
            _ => Err(Error::Cancelled),
        }
    }

    /// Load data into a movie loader.
    ///
    /// `body` is the sniffed body and `decoded` what the host made of the
    /// bytes that count. The data arrives once, while the load is still
    /// `Pending`, so that every step it asks for can be taken. A record that
    /// is gone yields `Cancelled`, and nothing changes.
    pub fn movie_loader_data(
        handle: Handle,
        manager: &mut LoadManager,
        body: &MovieBody,
        decoded: Decoded,
        is_movie_clip: bool,
    ) -> (reply: Reply)
        requires
            old(manager).wf(),
            old(manager).pending_or_gone(handle),
        ensures
            final(manager).wf(),
            final(manager).removals() == old(manager).removals(),
            old(manager).consistent() ==> final(manager).consistent(),
            final(manager).advances_from(*old(manager)),
            final(manager).accepts_all(reply.steps@),
            !old(manager).records().contains_key(handle) ==> {
                &&& reply.steps@ == Seq::<Action>::empty()
                &&& reply.error == Some(Error::Cancelled)
                &&& final(manager).records() == old(manager).records()
            },
            old(manager).records().contains_key(handle) ==> {
                &&& reply.steps@ == data_steps(
                    handle,
                    old(manager).records()[handle],
                    body.content_type(),
                    body.len(),
                    decoded,
                    is_movie_clip,
                )
                &&& reply.error == data_error(body.content_type(), decoded)
                &&& final(manager).records() == old(manager).records().insert(
                    handle,
                    data_record(old(manager).records()[handle], body.content_type(), decoded),
                )
            },
    {
        let record = match manager.record(handle) {
            Some(record) => record,
            None => {
                return Reply { steps: Vec::new(), error: Some(Error::Cancelled) };
            },
        };
        let (self_handle, clip, sink, status, parsed, avm2_data) = match record {
            Loader::Movie {
                self_handle,
                target_clip,
                event_handler,
                loader_status,
                movie,
                avm2_data,
            } => (self_handle, target_clip, event_handler, loader_status, movie, avm2_data),
            _ => {
                return Reply { steps: Vec::new(), error: Some(Error::Cancelled) };
            },
        };
        let content = body.content();
        let length = body.length();
        let mut steps: Vec<Action> = Vec::new();
        let mut error: Option<Error> = None;
        match content {
            ContentType::Swf => {
                match decoded {
                    Decoded::Movie(movie) => {
                        manager.replace_record(
                            handle,
                            Loader::Movie {
                                self_handle,
                                target_clip: clip,
                                event_handler: sink,
                                loader_status: LoaderStatus::Parsing,
                                movie: Some(movie),
                                avm2_data,
                            },
                        );
                        match info_object_of(sink) {
                            Some(loader_info) => {
                                steps.push(
                                    Action::SetLoaderStream {
                                        loader_info,
                                        stream: LoaderStream::NotYetLoaded {
                                            movie,
                                            clip: Some(clip),
                                            initialized: false,
                                        },
                                    },
                                );
                                steps.push(
                                    Action::Dispatch {
                                        target: loader_info,
                                        event: Event::Progress { loaded: 0, total: length },
                                    },
                                );
                            },
                            None => {},
                        }
                        steps.push(Action::BindDomain { movie, data: avm2_data });
                        if is_movie_clip {
                            steps.push(
                                Action::ReplaceWithMovie {
                                    clip,
                                    movie: Some(movie),
                                    loader_info: info_object_of(sink),
                                },
                            );
                        }
                        steps.push(
                            Action::PreloadTick {
                                handle,
                                max_ops: IMMEDIATE_PRELOAD_OPS,
                                max_millis: IMMEDIATE_PRELOAD_MILLIS,
                            },
                        );
                        assert(steps@ =~= swf_steps(
                            handle,
                            clip,
                            sink,
                            avm2_data,
                            movie,
                            length,
                            is_movie_clip,
                        ));
                    },
                    _ => {
                        push_error(&mut steps, handle, clip, sink);
                        error = Some(Error::InvalidSwf);
                    },
                }
            },
            ContentType::Jpeg | ContentType::Png | ContentType::Gif => {
                push_initial_progress(&mut steps, sink, length);
                match decoded {
                    Decoded::Bitmap => {
                        if is_movie_clip {
                            steps.push(Action::ShowImage { clip, length, depth: IMAGE_DEPTH });
                        }
                        push_progress(&mut steps, clip, sink, length, length);
                        steps.push(Action::Complete { handle });
                        assert(steps@ =~= image_steps(handle, clip, sink, length, is_movie_clip));
                    },
                    _ => {
                        push_error(&mut steps, handle, clip, sink);
                        error = Some(Error::InvalidBitmap);
                    },
                }
            },
            ContentType::Unknown => {
                push_progress(&mut steps, clip, sink, 0, 0);
                steps.push(Action::Complete { handle });
                assert(steps@ =~= unknown_steps(handle, clip, sink));
            },
        }
        assert(manager.records() =~= old(manager).records().insert(
            handle,
            data_record(old(manager).records()[handle], body.content_type(), decoded),
        ));
        Reply { steps, error }
    }

    /// Report a movie loader completion to script code, and make the load
    /// `Succeeded`. A record that is gone yields `Cancelled`, and nothing
    /// changes.
    pub fn movie_loader_complete(handle: Handle, manager: &mut LoadManager) -> (r: Result<Vec<Action>, Error>)
        requires
            old(manager).wf(),
            old(manager).may_become(handle, LoaderStatus::Succeeded),
        ensures
            final(manager).wf(),
            final(manager).removals() == old(manager).removals(),
            old(manager).consistent() ==> final(manager).consistent(),
            final(manager).advances_from(*old(manager)),
            !old(manager).records().contains_key(handle) ==> {
                &&& r == Err::<Vec<Action>, Error>(Error::Cancelled)
                &&& final(manager).records() == old(manager).records()
            },
            old(manager).records().contains_key(handle) ==> {
                &&& r is Ok
                &&& r->Ok_0@ == complete_steps(
                    old(manager).records()[handle]->target_clip,
                    old(manager).records()[handle]->event_handler,
                )
                &&& final(manager).records() == old(manager).records().insert(
                    handle,
                    old(manager).records()[handle].with_status(LoaderStatus::Succeeded),
                )
            },
    {
        match manager.record(handle) {
            Some(
                Loader::Movie { self_handle, target_clip, event_handler, movie, avm2_data, .. },
            ) => {
                let mut steps: Vec<Action> = Vec::new();
                push_complete(&mut steps, target_clip, event_handler);
                manager.replace_record(
                    handle,
                    Loader::Movie {
                        self_handle,
                        target_clip,
                        event_handler,
                        loader_status: LoaderStatus::Succeeded,
                        movie,
                        avm2_data,
                    },
                );
                Ok(steps)
            },
            _ => Err(Error::Cancelled),
        }
    }

    /// Report a movie loader error to script code.
    ///
    /// A legacy broadcaster hears `onLoadError` with `LoadNeverCompleted`,
    /// an info object gets an `ioError`; the last step marks the load as
    /// failed, which a load that has parsed can no longer be. A record that
    /// is gone yields `Cancelled`.
    pub fn movie_loader_error(handle: Handle, manager: &LoadManager) -> (r: Result<Vec<Action>, Error>)
        requires
            manager.may_become(handle, LoaderStatus::Failed),
        ensures
            r is Ok ==> manager.accepts_all(r->Ok_0@),
            !manager.records().contains_key(handle) ==> r == Err::<Vec<Action>, Error>(
                Error::Cancelled,
            ),
            manager.records().contains_key(handle) ==> r is Ok && r->Ok_0@ == error_steps(
                handle,
                manager.records()[handle]->target_clip,
                manager.records()[handle]->event_handler,
            ),
    {
        match manager.record(handle) {
            Some(Loader::Movie { target_clip, event_handler, .. }) => {
                let mut steps: Vec<Action> = Vec::new();
                push_error(&mut steps, handle, target_clip, event_handler);
                Ok(steps)
            },
            _ => Err(Error::Cancelled),
        }
    }

    /// Makes the movie load under `handle` `Failed`, once its sink has heard
    /// of the error. A record that is gone yields `Cancelled`, and nothing
    /// changes.
    pub fn movie_loader_failed(handle: Handle, manager: &mut LoadManager) -> (r: Result<(), Error>)
        requires
            old(manager).wf(),
            old(manager).may_become(handle, LoaderStatus::Failed),
        ensures
            final(manager).wf(),
            final(manager).removals() == old(manager).removals(),
            old(manager).consistent() ==> final(manager).consistent(),
            final(manager).advances_from(*old(manager)),
            !old(manager).records().contains_key(handle) ==> {
                &&& r == Err::<(), Error>(Error::Cancelled)
                &&& final(manager).records() == old(manager).records()
            },
            old(manager).records().contains_key(handle) ==> {
                &&& r is Ok
                &&& final(manager).records() == old(manager).records().insert(
                    handle,
                    old(manager).records()[handle].with_status(LoaderStatus::Failed),
                )
            },
    {
        match manager.record(handle) {
            Some(
                Loader::Movie { self_handle, target_clip, event_handler, movie, avm2_data, .. },
            ) => {
                manager.replace_record(
                    handle,
                    Loader::Movie {
                        self_handle,
                        target_clip,
                        event_handler,
                        loader_status: LoaderStatus::Failed,
                        movie,
                        avm2_data,
                    },
                );
                Ok(())
            },
            _ => Err(Error::Cancelled),
        }
    }
    /// Replaces the root movie by a fetched body.
    ///
    /// Only SWF is legal here, and the body is taken as it arrived: an SWZ
    /// container is not looked into. `decoded` is what the host made of the
    /// body. A record that is gone yields `Cancelled`, and nothing is done.
    pub fn replace_root_movie(
        handle: Handle,
        manager: &LoadManager,
        body: &MovieBody,
        decoded: Decoded,
    ) -> (reply: Reply)
        requires
            manager.pending_or_gone(handle),
        ensures
            manager.accepts_all(reply.steps@),
            !manager.records().contains_key(handle) ==> {
                &&& reply.steps@ == Seq::<Action>::empty()
                &&& reply.error == Some(Error::Cancelled)
            },
            manager.records().contains_key(handle) ==> {
                &&& reply.steps@ == root_steps(
                    handle,
                    manager.records()[handle],
                    body.outer_content_type(),
                    decoded,
                )
                &&& reply.error == root_error(body.outer_content_type(), decoded)
            },
    {
        let mut steps: Vec<Action> = Vec::new();
        let (clip, sink) = match manager.record(handle) {
            Some(Loader::Movie { target_clip, event_handler, .. }) => (target_clip, event_handler),
            _ => {
                return Reply { steps, error: Some(Error::Cancelled) };
            },
        };
        let content = body.outer_content();
        let error = match content.expect(ContentType::Swf) {
            Err(e) => Some(e),
            Ok(_) => match decoded {
                Decoded::Movie(_) => None,
                _ => Some(Error::InvalidSwf),
            },
        };
        if error.is_none() {
            steps.push(Action::SetRootMovie);
        } else {
            push_error(&mut steps, handle, clip, sink);
        }
        Reply { steps, error }
    }

    /// Takes the outcome of the fetch of a movie load from a URL.
    ///
    /// A fetch that failed tells the sink of the error. A body for the root
    /// clip replaces the root movie; any other body goes down the data
    /// path.
    pub fn movie_loader_fetched(
        handle: Handle,
        manager: &mut LoadManager,
        replacing_root_movie: bool,
        response: Option<&MovieBody>,
        decoded: Decoded,
        is_movie_clip: bool,
    ) -> (reply: Reply)
        requires
            old(manager).wf(),
            old(manager).pending_or_gone(handle),
        ensures
            final(manager).wf(),
            final(manager).removals() == old(manager).removals(),
            old(manager).consistent() ==> final(manager).consistent(),
            final(manager).advances_from(*old(manager)),
            final(manager).accepts_all(reply.steps@),
            response.is_none() || replacing_root_movie ==> final(manager).records() == old(manager).records(),
            !old(manager).records().contains_key(handle) ==> {
                &&& reply.steps@ == Seq::<Action>::empty()
                &&& reply.error == Some(Error::Cancelled)
                &&& final(manager).records() == old(manager).records()
            },
            response.is_none() && old(manager).records().contains_key(handle) ==> {
                &&& reply.steps@ == error_steps(
                    handle,
                    old(manager).records()[handle]->target_clip,
                    old(manager).records()[handle]->event_handler,
                )
                &&& reply.error.is_none()
            },
            response.is_some() && replacing_root_movie && old(manager).records().contains_key(
                handle,
            ) ==> {
                &&& reply.steps@ == root_steps(
                    handle,
                    old(manager).records()[handle],
                    response.unwrap().outer_content_type(),
                    decoded,
                )
                &&& reply.error == root_error(response.unwrap().outer_content_type(), decoded)
            },
            response.is_some() && !replacing_root_movie && old(manager).records().contains_key(
                handle,
            ) ==> {
                &&& reply.steps@ == data_steps(
                    handle,
                    old(manager).records()[handle],
                    response.unwrap().content_type(),
                    response.unwrap().len(),
                    decoded,
                    is_movie_clip,
                )
                &&& reply.error == data_error(response.unwrap().content_type(), decoded)
                &&& final(manager).records() == old(manager).records().insert(
                    handle,
                    data_record(
                        old(manager).records()[handle],
                        response.unwrap().content_type(),
                        decoded,
                    ),
                )
            },
    {
        match response {
            None => match Loader::movie_loader_error(handle, manager) {
                Ok(steps) => Reply { steps, error: None },
                Err(e) => Reply { steps: Vec::new(), error: Some(e) },
            },
            Some(body) => {
                if replacing_root_movie {
                    Loader::replace_root_movie(handle, manager, body, decoded)
                } else {
                    Loader::movie_loader_data(handle, manager, body, decoded, is_movie_clip)
                }
            },
        }
    }

    /// The clip on which the next preload tick of a movie load runs, or
    /// `None` while the load has no parsed movie to preload. A record that
    /// is gone yields `Cancelled`.
    pub fn preload_target(handle: Handle, manager: &LoadManager) -> (r: Result<Option<ObjectRef>, Error>)
        requires
            manager.movie_or_gone(handle),
        ensures
            !manager.records().contains_key(handle) ==> r == Err::<Option<ObjectRef>, Error>(
                Error::Cancelled,
            ),
            manager.records().contains_key(handle) ==> r == Ok::<Option<ObjectRef>, Error>(
                if manager.records()[handle]->movie.is_some() {
                    Some(manager.records()[handle]->target_clip)
                } else {
                    None
                },
            ),
    {
        match manager.record(handle) {
            Some(Loader::Movie { target_clip, movie, .. }) => {
                if movie.is_some() {
                    Ok(Some(target_clip))
                } else {
                    Ok(None)
                }
            },
            _ => Err(Error::Cancelled),
        }
    }

    /// Process tags on a loaded movie.
    ///
    /// `report` is what the target clip made of the tick. The sink hears of
    /// the progress in compressed bytes; where the clip has finished, the
    /// steps that bring it to life follow, and the last of them reports the
    /// load complete. A load without a parsed movie, and a target that is no
    /// movie clip, do nothing and have not finished. A record that is gone
    /// yields `Cancelled`.
    pub fn preload_tick(handle: Handle, manager: &LoadManager, report: PreloadReport) -> (r: Result<
        PreloadOutcome,
        Error,
    >)
        requires
            manager.may_become(handle, LoaderStatus::Succeeded),
        ensures
            r is Ok ==> manager.accepts_all(r->Ok_0.steps@),
            !manager.records().contains_key(handle) ==> r is Err && r->Err_0 == Error::Cancelled,
            manager.records().contains_key(handle) ==> r is Ok && (
            match (manager.records()[handle]->movie, report) {
                (Some(movie), PreloadReport::Preloaded { finished, loaded, total }) => {
                    &&& r->Ok_0.finished == finished
                    &&& r->Ok_0.steps@ == tick_steps(
                        handle,
                        manager.records()[handle]->target_clip,
                        manager.records()[handle]->event_handler,
                        movie,
                        finished,
                        loaded,
                        total,
                    )
                },
                _ => !r->Ok_0.finished && r->Ok_0.steps@ == Seq::<Action>::empty(),
            }),
    {
        let (clip, sink, movie) = match manager.record(handle) {
            Some(Loader::Movie { target_clip, event_handler, movie: Some(movie), .. }) => (
                target_clip,
                event_handler,
                movie,
            ),
            Some(_) => {
                return Ok(PreloadOutcome { steps: Vec::new(), finished: false });
            },
            None => {
                return Err(Error::Cancelled);
            },
        };
        let (finished, loaded, total) = match report {
            PreloadReport::Preloaded { finished, loaded, total } => (finished, loaded, total),
            PreloadReport::NotAMovieClip => {
                return Ok(PreloadOutcome { steps: Vec::new(), finished: false });
            },
        };
        let mut steps: Vec<Action> = Vec::new();
        push_progress(&mut steps, clip, sink, loaded, total);
        if finished {
            match info_object_of(sink) {
                Some(loader_info) => {
                    steps.push(
                        Action::SetLoaderStream {
                            loader_info,
                            stream: LoaderStream::NotYetLoaded {
                                movie,
                                clip: Some(clip),
                                initialized: false,
                            },
                        },
                    );
                },
                None => {},
            }
            steps.push(Action::PostInstantiation { clip });
            steps.push(Action::CatchUpToFrame { clip });
            steps.push(Action::SkipNextEnterFrame { clip });
            match info_object_of(sink) {
                Some(loader_info) => {
                    steps.push(Action::InsertIntoLoader { loader_info, clip, index: 0 });
                },
                None => {},
            }
            steps.push(Action::Complete { handle });
        }
        assert(steps@ =~= tick_steps(handle, clip, sink, movie, finished, loaded, total));
        Ok(PreloadOutcome { steps, finished })
    }
}

} // verus!