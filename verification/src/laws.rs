//! What holds of every movie load: the order of its statuses and the order
//! in which its sink hears of it.

use crate::action::{Action, Decoded, Event, LegacyMessage, LoaderStream};
use crate::content::{has_swf_signature, image_format_of, ContentType, JpegTagFormat, MovieBody};
use crate::data::{form_steps, root_movie_error, root_movie_steps, root_url, sound_avm1_steps};
use crate::manager::{is_slot_order, LoadManager};
use crate::movie::{
    complete_steps, data_error, data_record, data_steps, finish_steps, info_object, open_steps,
    progress_steps, swf_steps, tick_steps,
};
use crate::record::{
    Avm2LoaderData, Handle, Loader, LoaderStatus, MovieLoaderEventHandler, MovieRef, ObjectRef,
};
use vstd::prelude::*;

verus! {

/// Whether `history` can be the statuses that a movie load shows over time:
/// it starts `Pending`, and each status leads to the next.
pub open spec fn is_history(history: Seq<LoaderStatus>) -> bool {
    &&& history.len() > 0
    &&& history[0] == LoaderStatus::Pending
    &&& forall|i: int| 0 <= i < history.len() - 1 ==> history[i].leads_to(#[trigger] history[i + 1])
}

/// Whether `history` never shows `Succeeded` right after `Pending`.
pub open spec fn shows_parsing(history: Seq<LoaderStatus>) -> bool {
    forall|i: int|
        0 <= i < history.len() - 1 ==> !(history[i] == LoaderStatus::Pending && #[trigger] history[i
            + 1] == LoaderStatus::Succeeded)
}

/// Whether `history` shows `Pending` up to `a`, `Parsing` from there up to
/// `b`, and `Succeeded` from there on, and never `Succeeded` without
/// `Parsing` before it.
pub open spec fn cut_for_success(history: Seq<LoaderStatus>, a: int, b: int) -> bool {
    &&& 0 < a <= b <= history.len()
    &&& b < history.len() ==> a < b
    &&& forall|i: int|
        0 <= i < history.len() ==> #[trigger] history[i] == (if i < a {
            LoaderStatus::Pending
        } else if i < b {
            LoaderStatus::Parsing
        } else {
            LoaderStatus::Succeeded
        })
}

/// Whether `history` shows `Pending` up to `a` and `Failed` from there on.
pub open spec fn cut_for_failure(history: Seq<LoaderStatus>, a: int) -> bool {
    &&& 0 < a <= history.len()
    &&& forall|i: int|
        0 <= i < history.len() ==> #[trigger] history[i] == (if i < a {
            LoaderStatus::Pending
        } else {
            LoaderStatus::Failed
        })
}

/// Whether `history`, repeats aside, is a prefix of
/// `Pending, Parsing, Succeeded`.
pub open spec fn along_success(history: Seq<LoaderStatus>) -> bool {
    exists|a: int, b: int| #[trigger] cut_for_success(history, a, b)
}

/// Whether `history`, repeats aside, is a prefix of `Pending, Failed`.
pub open spec fn along_failure(history: Seq<LoaderStatus>) -> bool {
    exists|a: int| #[trigger] cut_for_failure(history, a)
}

/// A status leads to itself, and what it leads to leads on: the statuses
/// are ordered along the two paths, and no load leaves its path or goes
/// back on it.
pub proof fn law_status_order(a: LoaderStatus, b: LoaderStatus, c: LoaderStatus)
    ensures
        a.leads_to(a),
        a.leads_to(b) && b.leads_to(c) ==> a.leads_to(c),
        a.leads_to(b) && b.leads_to(a) ==> a == b,
        LoaderStatus::Pending.leads_to(a),
        a.is_terminal() && a.leads_to(b) ==> a == b,
{
}

/// The statuses that a movie load shows over time are, repeats aside, a
/// prefix of `Pending, Parsing, Succeeded` or of `Pending, Failed`, as long
/// as the load shows `Parsing` before it shows `Succeeded`.
pub proof fn law_status_history(history: Seq<LoaderStatus>)
    requires
        is_history(history),
        shows_parsing(history),
    ensures
        along_success(history) || along_failure(history),
    decreases history.len(),
{
    let n = history.len() as int;
    if n == 1 {
        assert(cut_for_success(history, 1, 1));
    } else {
        let earlier = history.drop_last();
        assert forall|i: int| 0 <= i < earlier.len() - 1 implies earlier[i].leads_to(
            #[trigger] earlier[i + 1],
        ) by {
            assert(history[i].leads_to(history[i + 1]));
        }
        assert forall|i: int| 0 <= i < earlier.len() - 1 implies !(earlier[i]
            == LoaderStatus::Pending && #[trigger] earlier[i + 1] == LoaderStatus::Succeeded) by {
            assert(!(history[i] == LoaderStatus::Pending && history[i + 1]
                == LoaderStatus::Succeeded));
        }
        law_status_history(earlier);
        assert(history[n - 2].leads_to(history[n - 2 + 1]));
        assert(!(history[n - 2] == LoaderStatus::Pending && history[n - 2 + 1]
            == LoaderStatus::Succeeded));
        assert(forall|i: int| 0 <= i < n - 1 ==> earlier[i] == history[i]);
        if along_success(earlier) {
            let (a, b) = choose|a: int, b: int| #[trigger] cut_for_success(earlier, a, b);
            lemma_extend_success(history, a, b);
        } else {
            let a = choose|a: int| #[trigger] cut_for_failure(earlier, a);
            lemma_extend_failure(history, a);
        }
    }
}

proof fn lemma_extend_success(history: Seq<LoaderStatus>, a: int, b: int)
    requires
        history.len() >= 2,
        history[history.len() - 2].leads_to(history[history.len() - 1]),
        !(history[history.len() - 2] == LoaderStatus::Pending && history[history.len() - 1]
            == LoaderStatus::Succeeded),
        0 < a <= b <= history.len() - 1,
        b < history.len() - 1 ==> a < b,
        forall|i: int|
            0 <= i < history.len() - 1 ==> #[trigger] history[i] == (if i < a {
                LoaderStatus::Pending
            } else if i < b {
                LoaderStatus::Parsing
            } else {
                LoaderStatus::Succeeded
            }),
    ensures
        along_success(history) || along_failure(history),
{
    let n = history.len() as int;
    let last = history[n - 1];
    let before = history[n - 2];
    if b < n - 1 {
        assert(cut_for_success(history, a, b));
    } else if a < b {
        if last == LoaderStatus::Parsing {
            assert(cut_for_success(history, a, n));
        } else {
            assert(cut_for_success(history, a, b));
        }
    } else {
        match last {
            LoaderStatus::Pending => {
                assert(cut_for_success(history, n, n));
            },
            LoaderStatus::Parsing => {
                assert(cut_for_success(history, a, n));
            },
            LoaderStatus::Failed => {
                assert(cut_for_failure(history, a));
            },
            LoaderStatus::Succeeded => {},
        }
    }
}

proof fn lemma_extend_failure(history: Seq<LoaderStatus>, a: int)
    requires
        history.len() >= 2,
        history[history.len() - 2].leads_to(history[history.len() - 1]),
        !(history[history.len() - 2] == LoaderStatus::Pending && history[history.len() - 1]
            == LoaderStatus::Succeeded),
        0 < a <= history.len() - 1,
        forall|i: int|
            0 <= i < history.len() - 1 ==> #[trigger] history[i] == (if i < a {
                LoaderStatus::Pending
            } else {
                LoaderStatus::Failed
            }),
    ensures
        along_success(history) || along_failure(history),
{
    let n = history.len() as int;
    let last = history[n - 1];
    if a < n - 1 {
        assert(cut_for_failure(history, a));
    } else {
        match last {
            LoaderStatus::Pending => {
                assert(cut_for_failure(history, n));
            },
            LoaderStatus::Failed => {
                assert(cut_for_failure(history, a));
            },
            LoaderStatus::Parsing => {
                assert(cut_for_success(history, a, n));
            },
            LoaderStatus::Succeeded => {},
        }
    }
}

/// A preload tick leaves alone every load that is not `Parsing`: one that
/// has succeeded or failed, or has no bytes yet, is not among the loads that
/// a frame ticks.
pub proof fn law_tick_skips_finished_loads(manager: LoadManager, handle: Handle)
    requires
        manager.records().contains_key(handle),
        manager.records()[handle] is Movie,
        manager.records()[handle]->loader_status != LoaderStatus::Parsing,
    ensures
        !manager.parsing(handle),
{
}

/// Where no movie load is `Parsing`, a frame has no load to tick: no clip is
/// asked to preload, nothing is told to script, and the round is finished
/// as it begins.
pub proof fn law_idle_frame_ticks_nothing(manager: LoadManager, queue: Seq<Handle>)
    requires
        forall|h: Handle| !manager.parsing(h),
        is_slot_order(queue, manager.parsing_set()),
    ensures
        queue.len() == 0,
{
    if queue.len() > 0 {
        assert(queue.contains(queue[0]));
        assert(manager.parsing_set().contains(queue[0]));
    }
}

/// Whether script can tell that a step has happened: a broadcast, now or
/// queued, a dispatched event, or the installation of the live stream, which
/// stands for the completion that an info object sees.
pub open spec fn is_heard(step: Action) -> bool {
    match step {
        Action::Broadcast { .. } => true,
        Action::QueueBroadcast { .. } => true,
        Action::Dispatch { .. } => true,
        Action::SetLoaderStream { stream: LoaderStream::Swf { .. }, .. } => true,
        _ => false,
    }
}

/// The steps of `steps` that script can tell, in their order.
pub open spec fn heard(steps: Seq<Action>) -> Seq<Action>
    decreases steps.len(),
{
    if steps.len() == 0 {
        seq![]
    } else {
        heard(steps.drop_last()) + (if is_heard(steps.last()) {
            seq![steps.last()]
        } else {
            seq![]
        })
    }
}

/// The steps of a run of preload ticks that have not finished, each given
/// by the loaded and total bytes that the clip reported.
pub open spec fn unfinished_ticks(
    handle: Handle,
    clip: ObjectRef,
    sink: Option<MovieLoaderEventHandler>,
    movie: MovieRef,
    ticks: Seq<(usize, usize)>,
) -> Seq<Action>
    decreases ticks.len(),
{
    if ticks.len() == 0 {
        seq![]
    } else {
        unfinished_ticks(handle, clip, sink, movie, ticks.drop_last()) + tick_steps(
            handle,
            clip,
            sink,
            movie,
            false,
            ticks.last().0,
            ticks.last().1,
        )
    }
}

/// All steps of a movie load from a URL into a clip other than the root,
/// whose body is SWF of `length` bytes and whose preload finishes on the
/// tick that follows `ticks`: the opening, the arrival of the bytes, the
/// ticks, and the completion. The steps that stand for a call back into the
/// load manager are followed by what that call asks for.
pub open spec fn successful_swf_load(
    handle: Handle,
    clip: ObjectRef,
    sink: Option<MovieLoaderEventHandler>,
    avm2_data: Option<Avm2LoaderData>,
    movie: MovieRef,
    length: usize,
    is_movie_clip: bool,
    avm2: bool,
    ticks: Seq<(usize, usize)>,
    last: (usize, usize),
) -> Seq<Action> {
    open_steps(clip, sink, is_movie_clip, false, avm2, false) + swf_steps(
        handle,
        clip,
        sink,
        avm2_data,
        movie,
        length,
        is_movie_clip,
    ) + unfinished_ticks(handle, clip, sink, movie, ticks) + tick_steps(
        handle,
        clip,
        sink,
        movie,
        true,
        last.0,
        last.1,
    ) + complete_steps(clip, sink)
}

proof fn lemma_heard_push(steps: Seq<Action>, step: Action)
    ensures
        heard(steps.push(step)) == heard(steps) + (if is_heard(step) {
            seq![step]
        } else {
            seq![]
        }),
{
    assert(steps.push(step).drop_last() =~= steps);
}

proof fn lemma_heard_add(front: Seq<Action>, back: Seq<Action>)
    ensures
        heard(front + back) == heard(front) + heard(back),
    decreases back.len(),
{
    if back.len() == 0 {
        assert(front + back =~= front);
        assert(heard(front) + heard(back) =~= heard(front));
    } else {
        lemma_heard_add(front, back.drop_last());
        assert((front + back).drop_last() =~= front + back.drop_last());
        assert((front + back).last() == back.last());
        assert(heard(front + back) =~= heard(front) + heard(back));
    }
}

/// What is heard of a concatenation is what is heard of its parts, and what
/// is heard of a list that ends in a step is what is heard before it, and
/// then the step if it can be told.
proof fn lemma_heard_unfolds()
    ensures
        forall|front: Seq<Action>, back: Seq<Action>| #[trigger]
            heard(front + back) == heard(front) + heard(back),
        forall|steps: Seq<Action>, step: Action| #[trigger]
            heard(steps.push(step)) == heard(steps) + (if is_heard(step) {
                seq![step]
            } else {
                seq![]
            }),
        heard(Seq::<Action>::empty()) == Seq::<Action>::empty(),
{
    assert forall|front: Seq<Action>, back: Seq<Action>| #[trigger]
        heard(front + back) == heard(front) + heard(back) by {
        lemma_heard_add(front, back);
    }
    assert forall|steps: Seq<Action>, step: Action| #[trigger]
        heard(steps.push(step)) == heard(steps) + (if is_heard(step) {
            seq![step]
        } else {
            seq![]
        }) by {
        lemma_heard_push(steps, step);
    }
}

/// Nothing of what brings a finished clip to life can be told by script.
proof fn lemma_heard_of_finish(
    handle: Handle,
    clip: ObjectRef,
    sink: Option<MovieLoaderEventHandler>,
    movie: MovieRef,
)
    ensures
        heard(finish_steps(handle, clip, sink, movie)) == Seq::<Action>::empty(),
{
    lemma_heard_unfolds();
    let first = match info_object(sink) {
        Some(loader_info) => seq![
            Action::SetLoaderStream {
                loader_info,
                stream: LoaderStream::NotYetLoaded {
                    movie,
                    clip: Some(clip),
                    initialized: false,
                },
            },
        ],
        None => seq![],
    };
    let second = seq![
        Action::PostInstantiation { clip },
        Action::CatchUpToFrame { clip },
        Action::SkipNextEnterFrame { clip },
    ];
    let third = match info_object(sink) {
        Some(loader_info) => seq![Action::InsertIntoLoader { loader_info, clip, index: 0 }],
        None => seq![],
    };
    let fourth = seq![Action::Complete { handle }];
    assert(second =~= seq![Action::PostInstantiation { clip }] + seq![
        Action::CatchUpToFrame { clip },
    ] + seq![Action::SkipNextEnterFrame { clip }]);
    assert(heard(first) =~= Seq::<Action>::empty());
    assert(heard(second) =~= Seq::<Action>::empty());
    assert(heard(third) =~= Seq::<Action>::empty());
    assert(heard(fourth) =~= Seq::<Action>::empty());
    assert(finish_steps(handle, clip, sink, movie) == first + second + third + fourth);
    assert(heard(first + second + third + fourth) =~= Seq::<Action>::empty());
}

/// Of the steps that follow the arrival of SWF bytes, script can tell the
/// initial progress that an info object gets, and nothing else.
proof fn lemma_heard_of_swf(
    handle: Handle,
    clip: ObjectRef,
    sink: Option<MovieLoaderEventHandler>,
    avm2_data: Option<Avm2LoaderData>,
    movie: MovieRef,
    length: usize,
    is_movie_clip: bool,
)
    ensures
        heard(swf_steps(handle, clip, sink, avm2_data, movie, length, is_movie_clip)) == (
        match info_object(sink) {
            Some(loader_info) => seq![
                Action::Dispatch {
                    target: loader_info,
                    event: Event::Progress { loaded: 0, total: length },
                },
            ],
            None => seq![],
        }),
{
    lemma_heard_unfolds();
    let first = match info_object(sink) {
        Some(loader_info) => seq![
            Action::SetLoaderStream {
                loader_info,
                stream: LoaderStream::NotYetLoaded {
                    movie,
                    clip: Some(clip),
                    initialized: false,
                },
            },
            Action::Dispatch {
                target: loader_info,
                event: Event::Progress { loaded: 0, total: length },
            },
        ],
        None => seq![],
    };
    let second = seq![Action::BindDomain { movie, data: avm2_data }];
    let third = if is_movie_clip {
        seq![
            Action::ReplaceWithMovie {
                clip,
                movie: Some(movie),
                loader_info: info_object(sink),
            },
        ]
    } else {
        seq![]
    };
    let fourth = seq![
        Action::PreloadTick {
            handle,
            max_ops: crate::movie::IMMEDIATE_PRELOAD_OPS,
            max_millis: crate::movie::IMMEDIATE_PRELOAD_MILLIS,
        },
    ];
    match info_object(sink) {
        Some(loader_info) => {
            assert(first =~= seq![
                Action::SetLoaderStream {
                    loader_info,
                    stream: LoaderStream::NotYetLoaded {
                        movie,
                        clip: Some(clip),
                        initialized: false,
                    },
                },
            ] + seq![
                Action::Dispatch {
                    target: loader_info,
                    event: Event::Progress { loaded: 0, total: length },
                },
            ]);
        },
        None => {},
    }
    assert(heard(first) =~= (match info_object(sink) {
        Some(loader_info) => seq![
            Action::Dispatch {
                target: loader_info,
                event: Event::Progress { loaded: 0, total: length },
            },
        ],
        None => seq![],
    }));
    assert(heard(second) =~= Seq::<Action>::empty());
    assert(heard(third) =~= Seq::<Action>::empty());
    assert(heard(fourth) =~= Seq::<Action>::empty());
    assert(swf_steps(handle, clip, sink, avm2_data, movie, length, is_movie_clip) == first
        + second + third + fourth);
    assert(heard(first + second + third + fourth) =~= heard(first));
}

/// Of a tick, script can tell the progress and nothing else.
proof fn lemma_heard_of_tick(
    handle: Handle,
    clip: ObjectRef,
    sink: Option<MovieLoaderEventHandler>,
    movie: MovieRef,
    finished: bool,
    loaded: usize,
    total: usize,
)
    ensures
        heard(tick_steps(handle, clip, sink, movie, finished, loaded, total)) == progress_steps(
            clip,
            sink,
            loaded,
            total,
        ),
{
    lemma_heard_unfolds();
    lemma_heard_of_finish(handle, clip, sink, movie);
    assert(heard(progress_steps(clip, sink, loaded, total)) =~= progress_steps(
        clip,
        sink,
        loaded,
        total,
    ));
    assert(heard(Seq::<Action>::empty()) =~= Seq::<Action>::empty());
    assert(heard(tick_steps(handle, clip, sink, movie, finished, loaded, total)) =~= progress_steps(
        clip,
        sink,
        loaded,
        total,
    ));
}

/// A body that carries neither the signature of an SWF nor the magic number
/// of an image sniffs as unknown, whatever it wraps, and bytes that carry the
/// signature of an SWF sniff as SWF: the movie inside an SWZ container is
/// recognised only once it has been taken out.
pub proof fn law_container_is_unknown_until_unwrapped(data: Seq<u8>, inner: Seq<u8>)
    requires
        !has_swf_signature(data),
        image_format_of(data) == JpegTagFormat::Unknown,
        has_swf_signature(inner),
    ensures
        ContentType::of_bytes(data) == ContentType::Unknown,
        ContentType::of_bytes(inner) == ContentType::Swf,
        forall|body: MovieBody| #[trigger]
            body.describes(data, Some(inner)) ==> body.outer_content_type()
                == ContentType::Unknown && body.content_type() == ContentType::Swf && body.len()
                == inner.len(),
{
}

/// A body that no recognizer knows and that is an SWZ container stands for
/// the bytes inside it: they are sniffed as they are, whether or not they are
/// a container themselves, and their length is the length that counts.
pub proof fn law_swz_is_unwrapped_once(body: MovieBody, data: Seq<u8>, inner: Seq<u8>)
    requires
        ContentType::of_bytes(data) == ContentType::Unknown,
        body.describes(data, Some(inner)),
    ensures
        body.content_type() == ContentType::of_bytes(inner),
        body.len() == inner.len(),
        body.inner() == Some(inner),
{
}

/// A movie load takes an SWZ container as it takes the bytes inside it given
/// directly: the steps, the error and the record after are the same.
pub proof fn law_swz_body_loads_as_its_payload(
    wrapped: MovieBody,
    direct: MovieBody,
    data: Seq<u8>,
    inner: Seq<u8>,
    further: Option<Seq<u8>>,
    handle: Handle,
    record: Loader,
    decoded: Decoded,
    is_movie_clip: bool,
)
    requires
        ContentType::of_bytes(data) == ContentType::Unknown,
        ContentType::of_bytes(inner) != ContentType::Unknown,
        wrapped.describes(data, Some(inner)),
        direct.describes(inner, further),
    ensures
        data_steps(handle, record, wrapped.content_type(), wrapped.len(), decoded, is_movie_clip)
            == data_steps(
            handle,
            record,
            direct.content_type(),
            direct.len(),
            decoded,
            is_movie_clip,
        ),
        data_error(wrapped.content_type(), decoded) == data_error(direct.content_type(), decoded),
        data_record(record, wrapped.content_type(), decoded) == data_record(
            record,
            direct.content_type(),
            decoded,
        ),
{
}

/// When SWF bytes arrive for an info object, the snapshot of the movie is
/// installed first and `progress(0, length)` is dispatched next; it is the
/// only thing of the arrival that script can tell, so no `open` and no
/// completion is among its steps.
pub proof fn law_swf_arrival_for_info_object(
    handle: Handle,
    clip: ObjectRef,
    loader_info: ObjectRef,
    avm2_data: Option<Avm2LoaderData>,
    movie: MovieRef,
    length: usize,
    is_movie_clip: bool,
)
    ensures
        ({
            let steps = swf_steps(
                handle,
                clip,
                Some(MovieLoaderEventHandler::Avm2LoaderInfo(loader_info)),
                avm2_data,
                movie,
                length,
                is_movie_clip,
            );
            &&& steps[0] == Action::SetLoaderStream {
                loader_info,
                stream: LoaderStream::NotYetLoaded {
                    movie,
                    clip: Some(clip),
                    initialized: false,
                },
            }
            &&& steps[1] == Action::Dispatch {
                target: loader_info,
                event: Event::Progress { loaded: 0, total: length },
            }
            &&& heard(steps) == seq![
                Action::Dispatch {
                    target: loader_info,
                    event: Event::Progress { loaded: 0, total: length },
                },
            ]
        }),
{
    lemma_heard_of_swf(
        handle,
        clip,
        Some(MovieLoaderEventHandler::Avm2LoaderInfo(loader_info)),
        avm2_data,
        movie,
        length,
        is_movie_clip,
    );
}

/// A load is reported complete to its sink in one step. An info object gets
/// the live stream of its clip installed and no event: script sees the
/// completion when the clip leaves its first frame. A legacy broadcaster
/// hears one `onLoadComplete` with status 0. A load without a sink tells
/// nobody.
pub proof fn law_completion_per_sink(clip: ObjectRef, sink_object: ObjectRef)
    ensures
        complete_steps(clip, Some(MovieLoaderEventHandler::Avm2LoaderInfo(sink_object))) == seq![
            Action::SetLoaderStream {
                loader_info: sink_object,
                stream: LoaderStream::Swf { clip },
            },
        ],
        complete_steps(clip, Some(MovieLoaderEventHandler::Avm1Broadcast(sink_object))) == seq![
            Action::Broadcast {
                broadcaster: sink_object,
                clip,
                message: LegacyMessage::OnLoadComplete { http_status: 0 },
            },
        ],
        complete_steps(clip, None) == Seq::<Action>::empty(),
{
}

/// The root movie is known under the spoofed URL wherever one is set. A
/// body that was fetched and parsed has its header reported first, then the
/// parameters appended, and then becomes the root movie, once and without
/// an error.
pub proof fn law_root_movie_happy_path(spoofed: Seq<char>, rewritten: Seq<char>)
    ensures
        root_url(Some(spoofed), rewritten) == spoofed,
        root_url(None, rewritten) == rewritten,
        root_movie_steps(true, true) == seq![
            Action::ReportMetadata,
            Action::AppendParameters,
            Action::SetRootMovie,
        ],
        root_movie_error(true, true).is_none(),
{
}

/// A form load into a movie clip sets the variables, queues one call of
/// `onData` and dispatches one `Data` event; into any other object it sets
/// the variables and queues nothing.
pub proof fn law_form_queues_on_data_for_clips_only(target: ObjectRef)
    ensures
        form_steps(target, true) == seq![
            Action::SetVariables { object: target },
            Action::QueueOnData { clip: target, object: target },
            Action::DispatchDataEvent { clip: target },
        ],
        form_steps(target, false) == seq![Action::SetVariables { object: target }],
{
    assert(form_steps(target, true) =~= seq![
        Action::SetVariables { object: target },
        Action::QueueOnData { clip: target, object: target },
        Action::DispatchDataEvent { clip: target },
    ]);
    assert(form_steps(target, false) =~= seq![Action::SetVariables { object: target }]);
}

/// A sound of the first script dialect hears `onLoad` once, with the
/// success of its load. A load that failed starts no playback, streaming or
/// not; one that succeeded starts it exactly where the sound is streaming.
pub proof fn law_sound_starts_only_after_success(target: ObjectRef, is_streaming: bool)
    ensures
        sound_avm1_steps(target, false, is_streaming) == seq![
            Action::CallOnLoad { object: target, success: false },
        ],
        sound_avm1_steps(target, true, false) == seq![
            Action::CallOnLoad { object: target, success: true },
        ],
        sound_avm1_steps(target, true, true) == seq![
            Action::CallOnLoad { object: target, success: true },
            Action::StartSound { object: target },
        ],
{
    assert(sound_avm1_steps(target, false, is_streaming) =~= seq![
        Action::CallOnLoad { object: target, success: false },
    ]);
    assert(sound_avm1_steps(target, true, false) =~= seq![
        Action::CallOnLoad { object: target, success: true },
    ]);
    assert(sound_avm1_steps(target, true, true) =~= seq![
        Action::CallOnLoad { object: target, success: true },
        Action::StartSound { object: target },
    ]);
}

/// The progress events that an info object gets for a run of ticks.
pub open spec fn progress_events(loader_info: ObjectRef, ticks: Seq<(usize, usize)>) -> Seq<
    Action,
> {
    ticks.map_values(
        |tick: (usize, usize)|
            Action::Dispatch {
                target: loader_info,
                event: Event::Progress { loaded: tick.0, total: tick.1 },
            },
    )
}

/// The progress messages that a legacy broadcaster gets for a run of ticks.
pub open spec fn progress_messages(
    broadcaster: ObjectRef,
    clip: ObjectRef,
    ticks: Seq<(usize, usize)>,
) -> Seq<Action> {
    ticks.map_values(
        |tick: (usize, usize)|
            Action::Broadcast {
                broadcaster,
                clip,
                message: LegacyMessage::OnLoadProgress { loaded: tick.0, total: tick.1 },
            },
    )
}

proof fn lemma_heard_of_info_ticks(
    handle: Handle,
    clip: ObjectRef,
    loader_info: ObjectRef,
    movie: MovieRef,
    ticks: Seq<(usize, usize)>,
)
    ensures
        heard(
            unfinished_ticks(
                handle,
                clip,
                Some(MovieLoaderEventHandler::Avm2LoaderInfo(loader_info)),
                movie,
                ticks,
            ),
        ) == progress_events(loader_info, ticks),
    decreases ticks.len(),
{
    lemma_heard_unfolds();
    let sink = Some(MovieLoaderEventHandler::Avm2LoaderInfo(loader_info));
    if ticks.len() > 0 {
        lemma_heard_of_tick(handle, clip, sink, movie, false, ticks.last().0, ticks.last().1);
    }
    if ticks.len() == 0 {
        assert(progress_events(loader_info, ticks) =~= Seq::<Action>::empty());
    } else {
        lemma_heard_of_info_ticks(handle, clip, loader_info, movie, ticks.drop_last());
        assert(progress_events(loader_info, ticks) =~= progress_events(
            loader_info,
            ticks.drop_last(),
        ) + seq![
            Action::Dispatch {
                target: loader_info,
                event: Event::Progress { loaded: ticks.last().0, total: ticks.last().1 },
            },
        ]);
        assert(heard(unfinished_ticks(handle, clip, sink, movie, ticks)) =~= progress_events(
            loader_info,
            ticks,
        ));
    }
}

proof fn lemma_heard_of_legacy_ticks(
    handle: Handle,
    clip: ObjectRef,
    broadcaster: ObjectRef,
    movie: MovieRef,
    ticks: Seq<(usize, usize)>,
)
    ensures
        heard(
            unfinished_ticks(
                handle,
                clip,
                Some(MovieLoaderEventHandler::Avm1Broadcast(broadcaster)),
                movie,
                ticks,
            ),
        ) == progress_messages(broadcaster, clip, ticks),
    decreases ticks.len(),
{
    lemma_heard_unfolds();
    let sink = Some(MovieLoaderEventHandler::Avm1Broadcast(broadcaster));
    if ticks.len() > 0 {
        lemma_heard_of_tick(handle, clip, sink, movie, false, ticks.last().0, ticks.last().1);
    }
    if ticks.len() == 0 {
        assert(progress_messages(broadcaster, clip, ticks) =~= Seq::<Action>::empty());
    } else {
        lemma_heard_of_legacy_ticks(handle, clip, broadcaster, movie, ticks.drop_last());
        assert(progress_messages(broadcaster, clip, ticks) =~= progress_messages(
            broadcaster,
            clip,
            ticks.drop_last(),
        ) + seq![
            Action::Broadcast {
                broadcaster,
                clip,
                message: LegacyMessage::OnLoadProgress {
                    loaded: ticks.last().0,
                    total: ticks.last().1,
                },
            },
        ]);
        assert(heard(unfinished_ticks(handle, clip, sink, movie, ticks)) =~= progress_messages(
            broadcaster,
            clip,
            ticks,
        ));
    }
}

/// An info object hears of a successful SWF load in this order: `open`,
/// `progress(0, length)`, one `progress` for each tick, and at last the
/// live stream.
pub proof fn law_info_object_event_order(
    handle: Handle,
    clip: ObjectRef,
    loader_info: ObjectRef,
    avm2_data: Option<Avm2LoaderData>,
    movie: MovieRef,
    length: usize,
    is_movie_clip: bool,
    avm2: bool,
    ticks: Seq<(usize, usize)>,
    last: (usize, usize),
)
    ensures
        heard(
            successful_swf_load(
                handle,
                clip,
                Some(MovieLoaderEventHandler::Avm2LoaderInfo(loader_info)),
                avm2_data,
                movie,
                length,
                is_movie_clip,
                avm2,
                ticks,
                last,
            ),
        ) == seq![
            Action::Dispatch { target: loader_info, event: Event::Open },
            Action::Dispatch {
                target: loader_info,
                event: Event::Progress { loaded: 0, total: length },
            },
        ] + progress_events(loader_info, ticks) + seq![
            Action::Dispatch {
                target: loader_info,
                event: Event::Progress { loaded: last.0, total: last.1 },
            },
            Action::SetLoaderStream { loader_info, stream: LoaderStream::Swf { clip } },
        ],
{
    lemma_heard_unfolds();
    lemma_heard_of_info_ticks(handle, clip, loader_info, movie, ticks);
    let sink = Some(MovieLoaderEventHandler::Avm2LoaderInfo(loader_info));
    lemma_heard_of_swf(handle, clip, sink, avm2_data, movie, length, is_movie_clip);
    lemma_heard_of_tick(handle, clip, sink, movie, true, last.0, last.1);
    let opened = seq![Action::Dispatch { target: loader_info, event: Event::Open }];
    let initial = seq![
        Action::Dispatch {
            target: loader_info,
            event: Event::Progress { loaded: 0, total: length },
        },
    ];
    let final_progress = seq![
        Action::Dispatch {
            target: loader_info,
            event: Event::Progress { loaded: last.0, total: last.1 },
        },
    ];
    let installed = seq![
        Action::SetLoaderStream { loader_info, stream: LoaderStream::Swf { clip } },
    ];
    assert(heard(open_steps(clip, sink, is_movie_clip, false, avm2, false)) =~= opened);
    assert(heard(complete_steps(clip, sink)) =~= installed);
    assert(seq![
        Action::Dispatch { target: loader_info, event: Event::Open },
        Action::Dispatch {
            target: loader_info,
            event: Event::Progress { loaded: 0, total: length },
        },
    ] =~= opened + initial);
    assert(seq![
        Action::Dispatch {
            target: loader_info,
            event: Event::Progress { loaded: last.0, total: last.1 },
        },
        Action::SetLoaderStream { loader_info, stream: LoaderStream::Swf { clip } },
    ] =~= final_progress + installed);
    assert(heard(
        successful_swf_load(
            handle,
            clip,
            sink,
            avm2_data,
            movie,
            length,
            is_movie_clip,
            avm2,
            ticks,
            last,
        ),
    ) =~= opened + initial + progress_events(loader_info, ticks) + final_progress + installed);
}

/// A legacy broadcaster hears of a successful SWF load in this order:
/// `onLoadStart`, one `onLoadProgress` for each tick, `onLoadComplete`
/// with status 0, and, once the sweep after the clip's first frame has
/// retired the load, the queued `onLoadInit`.
pub proof fn law_legacy_event_order(
    record: Loader,
    handle: Handle,
    broadcaster: ObjectRef,
    is_movie_clip: bool,
    avm2: bool,
    movie: MovieRef,
    length: usize,
    ticks: Seq<(usize, usize)>,
    last: (usize, usize),
)
    requires
        record is Movie,
        record->event_handler == Some(MovieLoaderEventHandler::Avm1Broadcast(broadcaster)),
    ensures
        heard(
            successful_swf_load(
                handle,
                record->target_clip,
                record->event_handler,
                record->avm2_data,
                movie,
                length,
                is_movie_clip,
                avm2,
                ticks,
                last,
            ) + record.with_status(LoaderStatus::Succeeded).init_steps(),
        ) == seq![
            Action::Broadcast {
                broadcaster,
                clip: record->target_clip,
                message: LegacyMessage::OnLoadStart,
            },
        ] + progress_messages(broadcaster, record->target_clip, ticks) + seq![
            Action::Broadcast {
                broadcaster,
                clip: record->target_clip,
                message: LegacyMessage::OnLoadProgress { loaded: last.0, total: last.1 },
            },
            Action::Broadcast {
                broadcaster,
                clip: record->target_clip,
                message: LegacyMessage::OnLoadComplete { http_status: 0 },
            },
            Action::QueueBroadcast {
                broadcaster,
                clip: record->target_clip,
                message: LegacyMessage::OnLoadInit,
            },
        ],
{
    lemma_heard_unfolds();
    let clip = record->target_clip;
    let sink = record->event_handler;
    let avm2_data = record->avm2_data;
    lemma_heard_of_legacy_ticks(handle, clip, broadcaster, movie, ticks);
    lemma_heard_of_swf(handle, clip, sink, avm2_data, movie, length, is_movie_clip);
    lemma_heard_of_tick(handle, clip, sink, movie, true, last.0, last.1);
    let started = seq![
        Action::Broadcast { broadcaster, clip, message: LegacyMessage::OnLoadStart },
    ];
    let final_progress = seq![
        Action::Broadcast {
            broadcaster,
            clip,
            message: LegacyMessage::OnLoadProgress { loaded: last.0, total: last.1 },
        },
    ];
    let completed = seq![
        Action::Broadcast {
            broadcaster,
            clip,
            message: LegacyMessage::OnLoadComplete { http_status: 0 },
        },
    ];
    let initialized = seq![
        Action::QueueBroadcast { broadcaster, clip, message: LegacyMessage::OnLoadInit },
    ];
    let load = successful_swf_load(
        handle,
        clip,
        sink,
        avm2_data,
        movie,
        length,
        is_movie_clip,
        avm2,
        ticks,
        last,
    );
    assert(heard(open_steps(clip, sink, is_movie_clip, false, avm2, false)) =~= started);
    assert(heard(complete_steps(clip, sink)) =~= completed);
    assert(heard(record.with_status(LoaderStatus::Succeeded).init_steps()) =~= initialized);
    assert(heard(load) =~= started + progress_messages(broadcaster, clip, ticks)
        + final_progress + completed);
    assert(seq![
        Action::Broadcast {
            broadcaster,
            clip,
            message: LegacyMessage::OnLoadProgress { loaded: last.0, total: last.1 },
        },
        Action::Broadcast {
            broadcaster,
            clip,
            message: LegacyMessage::OnLoadComplete { http_status: 0 },
        },
        Action::QueueBroadcast { broadcaster, clip, message: LegacyMessage::OnLoadInit },
    ] =~= final_progress + completed + initialized);
    assert(heard(load + record.with_status(LoaderStatus::Succeeded).init_steps()) =~= started
        + progress_messages(broadcaster, clip, ticks) + final_progress + completed
        + initialized);
}

} // verus!
