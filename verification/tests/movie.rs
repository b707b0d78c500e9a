use load_manager::action::{
    sentinel_url, Action, ByteCounter, DataValue, Decoded, Error, Event, IoErrorKind,
    LegacyMessage, LoaderStream, OnDataArgument,
};
use load_manager::content::{ContentType, MovieBody};
use load_manager::manager::LoadManager;
use load_manager::movie::{PreloadReport, IMAGE_DEPTH, IMMEDIATE_PRELOAD_MILLIS, IMMEDIATE_PRELOAD_OPS};
use load_manager::record::{
    Avm2LoaderData, Handle, Loader, LoaderStatus, MovieLoaderEventHandler, MovieRef, ObjectRef,
};

const CLIP: ObjectRef = ObjectRef { id: 1 };
const BROADCASTER: ObjectRef = ObjectRef { id: 2 };
const INFO: ObjectRef = ObjectRef { id: 3 };
const MOVIE: MovieRef = MovieRef { id: 40 };

const SWF_BYTES: [u8; 8] = [0x43, 0x57, 0x53, 0x09, 0x08, 0x00, 0x00, 0x00];
const PNG_BYTES: [u8; 10] = [0x89, 0x50, 0x4e, 0x47, 0x0d, 0x0a, 0x1a, 0x0a, 0x00, 0x00];
const RANDOM_BYTES: [u8; 6] = [0x13, 0x37, 0xc0, 0xff, 0xee, 0x00];

fn legacy() -> Option<MovieLoaderEventHandler> {
    Some(MovieLoaderEventHandler::Avm1Broadcast(BROADCASTER))
}

fn info() -> Option<MovieLoaderEventHandler> {
    Some(MovieLoaderEventHandler::Avm2LoaderInfo(INFO))
}

fn broadcast(message: LegacyMessage) -> Action {
    Action::Broadcast { broadcaster: BROADCASTER, clip: CLIP, message }
}

fn dispatch(event: Event) -> Action {
    Action::Dispatch { target: INFO, event }
}

fn not_yet_loaded() -> Action {
    Action::SetLoaderStream {
        loader_info: INFO,
        stream: LoaderStream::NotYetLoaded { movie: MOVIE, clip: Some(CLIP), initialized: false },
    }
}

fn immediate_tick(handle: Handle) -> Action {
    Action::PreloadTick {
        handle,
        max_ops: IMMEDIATE_PRELOAD_OPS,
        max_millis: IMMEDIATE_PRELOAD_MILLIS,
    }
}

fn status(manager: &LoadManager, handle: Handle) -> LoaderStatus {
    match manager.get_loader(handle).copied() {
        Some(Loader::Movie { loader_status, .. }) => loader_status,
        _ => panic!("no movie load under the handle"),
    }
}

fn parsed(manager: &LoadManager, handle: Handle) -> Option<MovieRef> {
    match manager.get_loader(handle).copied() {
        Some(Loader::Movie { movie, .. }) => movie,
        _ => panic!("no movie load under the handle"),
    }
}

/// An SWZ container around `SWF_BYTES`, in DER.
fn swz_bytes() -> Vec<u8> {
    let mut octet = vec![0x04, 0x08];
    octet.extend_from_slice(&SWF_BYTES);
    let mut inner_explicit = vec![0xa0, octet.len() as u8];
    inner_explicit.extend_from_slice(&octet);
    let mut content_info = vec![0x02, 0x01, 0x00];
    content_info.extend_from_slice(&inner_explicit);
    let mut content_seq = vec![0x30, content_info.len() as u8];
    content_seq.extend_from_slice(&content_info);
    let mut signed = vec![0x02, 0x01, 0x01, 0x02, 0x01, 0x02];
    signed.extend_from_slice(&content_seq);
    let mut signed_seq = vec![0x30, signed.len() as u8];
    signed_seq.extend_from_slice(&signed);
    let mut outer_explicit = vec![0xa0, signed_seq.len() as u8];
    outer_explicit.extend_from_slice(&signed_seq);
    let mut outer = vec![0x02, 0x01, 0x00];
    outer.extend_from_slice(&outer_explicit);
    let mut bytes = vec![0x30, outer.len() as u8];
    bytes.extend_from_slice(&outer);
    bytes
}

#[test]
fn budget_of_the_immediate_tick() {
    assert_eq!(IMMEDIATE_PRELOAD_OPS, 10000);
    assert_eq!(IMMEDIATE_PRELOAD_MILLIS, 1);
    assert_eq!(IMAGE_DEPTH, 1);
    assert_eq!(sentinel_url(), "file:///");
}

#[test]
fn opening_a_url_load_in_the_first_dialect() {
    let mut manager = LoadManager::new();
    let handle = manager.load_movie_into_clip(CLIP, legacy(), None);
    let steps = Loader::movie_loader(handle, &manager, true, false, false).unwrap();
    assert_eq!(
        steps,
        vec![
            Action::Unload { clip: CLIP },
            Action::ReplaceWithMovie { clip: CLIP, movie: None, loader_info: None },
            broadcast(LegacyMessage::OnLoadStart),
        ]
    );
    assert_eq!(status(&manager, handle), LoaderStatus::Pending);
}

#[test]
fn opening_a_url_load_in_the_second_dialect() {
    let mut manager = LoadManager::new();
    let handle = manager.load_movie_into_clip(CLIP, info(), None);
    let steps = Loader::movie_loader(handle, &manager, true, false, true).unwrap();
    assert_eq!(
        steps,
        vec![
            Action::ReplaceWithMovie { clip: CLIP, movie: None, loader_info: None },
            dispatch(Event::Open),
        ]
    );
}

#[test]
fn opening_a_load_into_something_that_is_no_movie_clip() {
    let mut manager = LoadManager::new();
    let handle = manager.load_movie_into_clip(CLIP, legacy(), None);
    let steps = Loader::movie_loader(handle, &manager, false, false, false).unwrap();
    assert_eq!(steps, vec![broadcast(LegacyMessage::OnLoadStart)]);
    let silent = manager.load_movie_into_clip(CLIP, None, None);
    assert!(Loader::movie_loader(silent, &manager, false, false, false).unwrap().is_empty());
}

#[test]
fn opening_a_load_that_replaces_the_root_tells_nobody() {
    let mut manager = LoadManager::new();
    let handle = manager.load_movie_into_clip(CLIP, info(), None);
    let steps = Loader::movie_loader(handle, &manager, true, true, true).unwrap();
    assert_eq!(
        steps,
        vec![Action::ReplaceWithMovie { clip: CLIP, movie: None, loader_info: None }]
    );
}

#[test]
fn opening_a_load_from_bytes_emits_no_start() {
    let mut manager = LoadManager::new();
    for sink in [legacy(), info(), None] {
        let handle = manager.load_movie_into_clip_bytes(CLIP, sink, None);
        let steps = Loader::movie_loader_bytes(handle, &manager, true, false, false).unwrap();
        assert_eq!(
            steps,
            vec![
                Action::Unload { clip: CLIP },
                Action::ReplaceWithMovie { clip: CLIP, movie: None, loader_info: None },
            ]
        );
    }
}

#[test]
fn start_per_sink() {
    let mut manager = LoadManager::new();
    let a = manager.load_movie_into_clip(CLIP, legacy(), None);
    let b = manager.load_movie_into_clip(CLIP, info(), None);
    let c = manager.load_movie_into_clip(CLIP, None, None);
    assert_eq!(
        Loader::movie_loader_start(a, &manager),
        Ok(vec![broadcast(LegacyMessage::OnLoadStart)])
    );
    assert_eq!(Loader::movie_loader_start(b, &manager), Ok(vec![dispatch(Event::Open)]));
    assert_eq!(Loader::movie_loader_start(c, &manager), Ok(vec![]));
}

#[test]
fn progress_per_sink() {
    let mut manager = LoadManager::new();
    let a = manager.load_movie_into_clip(CLIP, legacy(), None);
    let b = manager.load_movie_into_clip(CLIP, info(), None);
    let c = manager.load_movie_into_clip(CLIP, None, None);
    assert_eq!(
        Loader::movie_loader_progress(a, &manager, 5, 17),
        Ok(vec![broadcast(LegacyMessage::OnLoadProgress { loaded: 5, total: 17 })])
    );
    assert_eq!(
        Loader::movie_loader_progress(b, &manager, 5, 17),
        Ok(vec![dispatch(Event::Progress { loaded: 5, total: 17 })])
    );
    assert_eq!(Loader::movie_loader_progress(c, &manager, 5, 17), Ok(vec![]));
}

#[test]
fn complete_per_sink_makes_the_load_succeeded() {
    let mut manager = LoadManager::new();
    let a = manager.load_movie_into_clip(CLIP, legacy(), None);
    let b = manager.load_movie_into_clip(CLIP, info(), None);
    let c = manager.load_movie_into_clip(CLIP, None, None);
    assert_eq!(
        Loader::movie_loader_complete(a, &mut manager),
        Ok(vec![broadcast(LegacyMessage::OnLoadComplete { http_status: 0 })])
    );
    assert_eq!(
        Loader::movie_loader_complete(b, &mut manager),
        Ok(vec![Action::SetLoaderStream {
            loader_info: INFO,
            stream: LoaderStream::Swf { clip: CLIP }
        }])
    );
    assert_eq!(Loader::movie_loader_complete(c, &mut manager), Ok(vec![]));
    for handle in [a, b, c] {
        assert_eq!(status(&manager, handle), LoaderStatus::Succeeded);
    }
}

#[test]
fn error_per_sink_ends_in_the_failure_report() {
    let mut manager = LoadManager::new();
    let a = manager.load_movie_into_clip(CLIP, legacy(), None);
    let b = manager.load_movie_into_clip(CLIP, info(), None);
    let c = manager.load_movie_into_clip(CLIP, None, None);
    assert_eq!(
        Loader::movie_loader_error(a, &manager),
        Ok(vec![broadcast(LegacyMessage::OnLoadError), Action::Fail { handle: a }])
    );
    assert_eq!(
        Loader::movie_loader_error(b, &manager),
        Ok(vec![dispatch(Event::IoError(IoErrorKind::MovieLoader)), Action::Fail { handle: b }])
    );
    assert_eq!(Loader::movie_loader_error(c, &manager), Ok(vec![Action::Fail { handle: c }]));
    assert_eq!(status(&manager, a), LoaderStatus::Pending);
    assert_eq!(Loader::movie_loader_failed(a, &mut manager), Ok(()));
    assert_eq!(status(&manager, a), LoaderStatus::Failed);
    assert_eq!(parsed(&manager, a), None);
}

#[test]
fn names_and_codes_of_script_visible_events() {
    assert_eq!(LegacyMessage::OnLoadStart.name(), "onLoadStart");
    assert_eq!(LegacyMessage::OnLoadProgress { loaded: 1, total: 2 }.name(), "onLoadProgress");
    assert_eq!(LegacyMessage::OnLoadComplete { http_status: 0 }.name(), "onLoadComplete");
    assert_eq!(LegacyMessage::OnLoadError.name(), "onLoadError");
    assert_eq!(LegacyMessage::OnLoadInit.name(), "onLoadInit");
    assert_eq!(LegacyMessage::error_code(), "LoadNeverCompleted");
    assert_eq!(Event::Open.name(), "open");
    assert_eq!(Event::Progress { loaded: 0, total: 0 }.name(), "progress");
    assert_eq!(Event::Complete.name(), "complete");
    assert_eq!(Event::IoError(IoErrorKind::Stream).name(), "ioError");
    assert_eq!(IoErrorKind::Stream.message(), "Error #2032: Stream Error");
    assert_eq!(IoErrorKind::Stream.code(), 2032);
    assert_eq!(IoErrorKind::MovieLoader.message(), "Movie loader error");
    assert_eq!(IoErrorKind::MovieLoader.code(), 0);
}

#[test]
fn events_neither_bubble_nor_can_be_cancelled() {
    let events = [
        Event::Open,
        Event::Progress { loaded: 1, total: 2 },
        Event::Complete,
        Event::IoError(IoErrorKind::Stream),
        Event::IoError(IoErrorKind::MovieLoader),
    ];
    for event in events {
        assert!(!event.bubbles());
        assert!(!event.cancelable());
    }
}

#[test]
fn script_names_of_steps() {
    assert_eq!(broadcast(LegacyMessage::OnLoadStart).script_name(), Some("broadcastMessage"));
    assert_eq!(
        Action::QueueBroadcast {
            broadcaster: BROADCASTER,
            clip: CLIP,
            message: LegacyMessage::OnLoadInit
        }
        .script_name(),
        Some("broadcastMessage")
    );
    assert_eq!(Action::QueueOnData { clip: CLIP, object: CLIP }.script_name(), Some("onData"));
    assert_eq!(
        Action::CallOnData { object: CLIP, argument: OnDataArgument::Text }.script_name(),
        Some("onData")
    );
    assert_eq!(
        Action::CallOnHttpStatus { object: CLIP, status: 200 }.script_name(),
        Some("onHTTPStatus")
    );
    assert_eq!(Action::CallOnLoad { object: CLIP, success: true }.script_name(), Some("onLoad"));
    assert_eq!(
        Action::SetData { target: CLIP, value: DataValue::Undefined }.script_name(),
        Some("data")
    );
    assert_eq!(
        Action::SetByteCounter { object: CLIP, counter: ByteCounter::BytesTotal, value: 1 }
            .script_name(),
        Some("_bytesTotal")
    );
    assert_eq!(
        Action::SetByteCounter { object: CLIP, counter: ByteCounter::BytesLoaded, value: 1 }
            .script_name(),
        Some("_bytesLoaded")
    );
    assert_eq!(dispatch(Event::Open).script_name(), None);
    assert_eq!(Action::SetRootMovie.script_name(), None);
}

#[test]
fn failure_kind_of_each_fallible_step() {
    assert_eq!(dispatch(Event::Open).failure(), Some(Error::Avm2Error));
    assert_eq!(
        Action::InsertIntoLoader { loader_info: INFO, clip: CLIP, index: 0 }.failure(),
        Some(Error::Avm2Error)
    );
    assert_eq!(Action::SetVariables { object: CLIP }.failure(), Some(Error::Avm1Error));
    assert_eq!(Action::StartSound { object: CLIP }.failure(), Some(Error::Avm1Error));
    assert_eq!(Action::RegisterSound { object: CLIP }.failure(), Some(Error::InvalidSound));
    assert_eq!(broadcast(LegacyMessage::OnLoadStart).failure(), None);
    assert_eq!(Action::Complete { handle: Handle { index: 0, generation: 0 } }.failure(), None);
}

#[test]
fn swf_data_for_an_info_object() {
    let mut manager = LoadManager::new();
    let data = Some(Avm2LoaderData { context: None, default_domain: ObjectRef { id: 9 } });
    let handle = manager.load_movie_into_clip(CLIP, info(), data);
    let body = MovieBody::sniff(&SWF_BYTES);
    let reply = Loader::movie_loader_data(handle, &mut manager, &body, Decoded::Movie(MOVIE), true);
    assert_eq!(reply.error, None);
    assert_eq!(
        reply.steps,
        vec![
            not_yet_loaded(),
            dispatch(Event::Progress { loaded: 0, total: SWF_BYTES.len() }),
            Action::BindDomain { movie: MOVIE, data },
            Action::ReplaceWithMovie { clip: CLIP, movie: Some(MOVIE), loader_info: Some(INFO) },
            immediate_tick(handle),
        ]
    );
    assert_eq!(status(&manager, handle), LoaderStatus::Parsing);
    assert_eq!(parsed(&manager, handle), Some(MOVIE));
    assert!(manager.is_parsing(handle));
}

#[test]
fn swf_data_for_a_legacy_broadcaster() {
    let mut manager = LoadManager::new();
    let handle = manager.load_movie_into_clip(CLIP, legacy(), None);
    let body = MovieBody::sniff(&SWF_BYTES);
    let reply = Loader::movie_loader_data(handle, &mut manager, &body, Decoded::Movie(MOVIE), false);
    assert_eq!(reply.error, None);
    assert_eq!(
        reply.steps,
        vec![Action::BindDomain { movie: MOVIE, data: None }, immediate_tick(handle)]
    );
    assert_eq!(status(&manager, handle), LoaderStatus::Parsing);
}

#[test]
fn swf_data_that_does_not_parse() {
    let mut manager = LoadManager::new();
    let handle = manager.load_movie_into_clip(CLIP, info(), None);
    let body = MovieBody::sniff(&SWF_BYTES);
    let reply = Loader::movie_loader_data(handle, &mut manager, &body, Decoded::Nothing, true);
    assert_eq!(reply.error, Some(Error::InvalidSwf));
    assert_eq!(
        reply.steps,
        vec![dispatch(Event::IoError(IoErrorKind::MovieLoader)), Action::Fail { handle }]
    );
    assert_eq!(status(&manager, handle), LoaderStatus::Pending);
    assert_eq!(parsed(&manager, handle), None);
}

#[test]
fn image_data_for_an_info_object() {
    let mut manager = LoadManager::new();
    let handle = manager.load_movie_into_clip(CLIP, info(), None);
    let body = MovieBody::sniff(&PNG_BYTES);
    assert_eq!(body.content(), ContentType::Png);
    let reply = Loader::movie_loader_data(handle, &mut manager, &body, Decoded::Bitmap, true);
    let length = PNG_BYTES.len();
    assert_eq!(reply.error, None);
    assert_eq!(
        reply.steps,
        vec![
            dispatch(Event::Progress { loaded: 0, total: length }),
            Action::ShowImage { clip: CLIP, length, depth: 1 },
            dispatch(Event::Progress { loaded: length, total: length }),
            Action::Complete { handle },
        ]
    );
    assert_eq!(status(&manager, handle), LoaderStatus::Pending);
    Loader::movie_loader_complete(handle, &mut manager).unwrap();
    assert_eq!(status(&manager, handle), LoaderStatus::Succeeded);
}

#[test]
fn image_data_for_a_legacy_broadcaster() {
    let mut manager = LoadManager::new();
    let handle = manager.load_movie_into_clip(CLIP, legacy(), None);
    let body = MovieBody::sniff(&PNG_BYTES);
    let reply = Loader::movie_loader_data(handle, &mut manager, &body, Decoded::Bitmap, false);
    let length = PNG_BYTES.len();
    assert_eq!(
        reply.steps,
        vec![
            broadcast(LegacyMessage::OnLoadProgress { loaded: length, total: length }),
            Action::Complete { handle },
        ]
    );
}

#[test]
fn image_data_that_does_not_decode() {
    let mut manager = LoadManager::new();
    let handle = manager.load_movie_into_clip(CLIP, info(), None);
    let body = MovieBody::sniff(&PNG_BYTES);
    let reply = Loader::movie_loader_data(handle, &mut manager, &body, Decoded::Nothing, true);
    assert_eq!(reply.error, Some(Error::InvalidBitmap));
    assert_eq!(
        reply.steps,
        vec![
            dispatch(Event::Progress { loaded: 0, total: PNG_BYTES.len() }),
            dispatch(Event::IoError(IoErrorKind::MovieLoader)),
            Action::Fail { handle },
        ]
    );
}

#[test]
fn unknown_data_completes_with_length_zero() {
    let mut manager = LoadManager::new();
    let a = manager.load_movie_into_clip(CLIP, info(), None);
    let b = manager.load_movie_into_clip(CLIP, legacy(), None);
    let body = MovieBody::sniff(&RANDOM_BYTES);
    let reply = Loader::movie_loader_data(a, &mut manager, &body, Decoded::Nothing, true);
    assert_eq!(reply.error, None);
    assert_eq!(
        reply.steps,
        vec![dispatch(Event::Progress { loaded: 0, total: 0 }), Action::Complete { handle: a }]
    );
    let reply = Loader::movie_loader_data(b, &mut manager, &body, Decoded::Nothing, true);
    assert_eq!(
        reply.steps,
        vec![
            broadcast(LegacyMessage::OnLoadProgress { loaded: 0, total: 0 }),
            Action::Complete { handle: b },
        ]
    );
}

#[test]
fn preload_target_waits_for_a_parsed_movie() {
    let mut manager = LoadManager::new();
    let handle = manager.load_movie_into_clip(CLIP, None, None);
    assert_eq!(Loader::preload_target(handle, &manager), Ok(None));
    let body = MovieBody::sniff(&SWF_BYTES);
    Loader::movie_loader_data(handle, &mut manager, &body, Decoded::Movie(MOVIE), true);
    assert_eq!(Loader::preload_target(handle, &manager), Ok(Some(CLIP)));
    manager.remove_loader(handle);
    assert_eq!(Loader::preload_target(handle, &manager), Err(Error::Cancelled));
}

#[test]
fn preload_tick_without_a_movie_or_a_movie_clip_does_nothing() {
    let mut manager = LoadManager::new();
    let handle = manager.load_movie_into_clip(CLIP, info(), None);
    let report = PreloadReport::Preloaded { finished: true, loaded: 8, total: 8 };
    let outcome = Loader::preload_tick(handle, &manager, report).unwrap();
    assert!(!outcome.finished);
    assert!(outcome.steps.is_empty());

    let body = MovieBody::sniff(&SWF_BYTES);
    Loader::movie_loader_data(handle, &mut manager, &body, Decoded::Movie(MOVIE), false);
    let outcome = Loader::preload_tick(handle, &manager, PreloadReport::NotAMovieClip).unwrap();
    assert!(!outcome.finished);
    assert!(outcome.steps.is_empty());
}

#[test]
fn preload_tick_that_does_not_finish_reports_progress_only() {
    let mut manager = LoadManager::new();
    let handle = manager.load_movie_into_clip(CLIP, legacy(), None);
    let body = MovieBody::sniff(&SWF_BYTES);
    Loader::movie_loader_data(handle, &mut manager, &body, Decoded::Movie(MOVIE), true);
    let report = PreloadReport::Preloaded { finished: false, loaded: 3, total: 8 };
    let outcome = Loader::preload_tick(handle, &manager, report).unwrap();
    assert!(!outcome.finished);
    assert_eq!(
        outcome.steps,
        vec![broadcast(LegacyMessage::OnLoadProgress { loaded: 3, total: 8 })]
    );
    assert_eq!(status(&manager, handle), LoaderStatus::Parsing);
}

#[test]
fn preload_tick_that_finishes_for_an_info_object() {
    let mut manager = LoadManager::new();
    let handle = manager.load_movie_into_clip(CLIP, info(), None);
    let body = MovieBody::sniff(&SWF_BYTES);
    Loader::movie_loader_data(handle, &mut manager, &body, Decoded::Movie(MOVIE), true);
    let report = PreloadReport::Preloaded { finished: true, loaded: 8, total: 8 };
    let outcome = Loader::preload_tick(handle, &manager, report).unwrap();
    assert!(outcome.finished);
    assert_eq!(
        outcome.steps,
        vec![
            dispatch(Event::Progress { loaded: 8, total: 8 }),
            not_yet_loaded(),
            Action::PostInstantiation { clip: CLIP },
            Action::CatchUpToFrame { clip: CLIP },
            Action::SkipNextEnterFrame { clip: CLIP },
            Action::InsertIntoLoader { loader_info: INFO, clip: CLIP, index: 0 },
            Action::Complete { handle },
        ]
    );
}

#[test]
fn preload_tick_that_finishes_for_a_legacy_broadcaster() {
    let mut manager = LoadManager::new();
    let handle = manager.load_movie_into_clip(CLIP, legacy(), None);
    let body = MovieBody::sniff(&SWF_BYTES);
    Loader::movie_loader_data(handle, &mut manager, &body, Decoded::Movie(MOVIE), true);
    let report = PreloadReport::Preloaded { finished: true, loaded: 8, total: 8 };
    let outcome = Loader::preload_tick(handle, &manager, report).unwrap();
    assert!(outcome.finished);
    assert_eq!(
        outcome.steps,
        vec![
            broadcast(LegacyMessage::OnLoadProgress { loaded: 8, total: 8 }),
            Action::PostInstantiation { clip: CLIP },
            Action::CatchUpToFrame { clip: CLIP },
            Action::SkipNextEnterFrame { clip: CLIP },
            Action::Complete { handle },
        ]
    );
}

#[test]
fn a_frame_tick_leaves_a_succeeded_load_alone() {
    let mut manager = LoadManager::new();
    let handle = manager.load_movie_into_clip(CLIP, info(), None);
    let body = MovieBody::sniff(&SWF_BYTES);
    Loader::movie_loader_data(handle, &mut manager, &body, Decoded::Movie(MOVIE), true);
    Loader::movie_loader_complete(handle, &mut manager).unwrap();
    let before = manager.get_loader(handle).copied();
    let ticked: Vec<Handle> =
        manager.handles().into_iter().filter(|h| manager.is_parsing(*h)).collect();
    assert!(ticked.is_empty());
    assert!(LoadManager::preload_tick(&vec![]));
    assert_eq!(format!("{:?}", manager.get_loader(handle).copied()), format!("{:?}", before));
}

/// Collects what script can tell of a list of steps.
fn heard(steps: &[Action]) -> Vec<Action> {
    steps
        .iter()
        .copied()
        .filter(|step| {
            matches!(
                step,
                Action::Broadcast { .. }
                    | Action::QueueBroadcast { .. }
                    | Action::Dispatch { .. }
                    | Action::SetLoaderStream { stream: LoaderStream::Swf { .. }, .. }
            )
        })
        .collect()
}

/// Runs a URL load of SWF bytes to its end, two unfinished ticks and then a
/// finished one, and returns every step in order.
fn run_swf_load(manager: &mut LoadManager, handle: Handle, in_memory: bool) -> Vec<Action> {
    let mut all = if in_memory {
        Loader::movie_loader_bytes(handle, manager, true, false, true).unwrap()
    } else {
        Loader::movie_loader(handle, manager, true, false, true).unwrap()
    };
    let body = MovieBody::sniff(&SWF_BYTES);
    let reply =
        Loader::movie_loader_fetched(handle, manager, false, Some(&body), Decoded::Movie(MOVIE), true);
    assert_eq!(reply.error, None);
    all.extend(reply.steps);
    for (finished, loaded) in [(false, 2), (false, 5), (true, 8)] {
        assert!(manager.is_parsing(handle));
        let report = PreloadReport::Preloaded { finished, loaded, total: 8 };
        let outcome = Loader::preload_tick(handle, manager, report).unwrap();
        assert_eq!(outcome.finished, finished);
        all.extend(outcome.steps);
    }
    assert_eq!(all.last(), Some(&Action::Complete { handle }));
    all.extend(Loader::movie_loader_complete(handle, manager).unwrap());
    all
}

#[test]
fn event_order_for_an_info_object() {
    let mut manager = LoadManager::new();
    let handle = manager.load_movie_into_clip(CLIP, info(), None);
    let all = run_swf_load(&mut manager, handle, false);
    assert_eq!(
        heard(&all),
        vec![
            dispatch(Event::Open),
            dispatch(Event::Progress { loaded: 0, total: 8 }),
            dispatch(Event::Progress { loaded: 2, total: 8 }),
            dispatch(Event::Progress { loaded: 5, total: 8 }),
            dispatch(Event::Progress { loaded: 8, total: 8 }),
            Action::SetLoaderStream { loader_info: INFO, stream: LoaderStream::Swf { clip: CLIP } },
        ]
    );
    assert_eq!(status(&manager, handle), LoaderStatus::Succeeded);
}

#[test]
fn event_order_for_a_legacy_broadcaster() {
    let mut manager = LoadManager::new();
    let handle = manager.load_movie_into_clip(CLIP, legacy(), None);
    let mut all = run_swf_load(&mut manager, handle, false);
    let mut queue = Vec::new();
    manager.movie_clip_on_load(&mut queue);
    all.extend(queue);
    assert_eq!(
        heard(&all),
        vec![
            broadcast(LegacyMessage::OnLoadStart),
            broadcast(LegacyMessage::OnLoadProgress { loaded: 2, total: 8 }),
            broadcast(LegacyMessage::OnLoadProgress { loaded: 5, total: 8 }),
            broadcast(LegacyMessage::OnLoadProgress { loaded: 8, total: 8 }),
            broadcast(LegacyMessage::OnLoadComplete { http_status: 0 }),
            Action::QueueBroadcast {
                broadcaster: BROADCASTER,
                clip: CLIP,
                message: LegacyMessage::OnLoadInit
            },
        ]
    );
    assert!(manager.get_loader(handle).copied().is_none());
}

#[test]
fn status_history_of_a_successful_and_of_a_failed_load() {
    let mut manager = LoadManager::new();
    let good = manager.load_movie_into_clip(CLIP, None, None);
    let bad = manager.load_movie_into_clip(CLIP, None, None);
    let mut good_history = vec![status(&manager, good)];
    let mut bad_history = vec![status(&manager, bad)];

    let body = MovieBody::sniff(&SWF_BYTES);
    Loader::movie_loader_fetched(good, &mut manager, false, Some(&body), Decoded::Movie(MOVIE), true);
    good_history.push(status(&manager, good));
    bad_history.push(status(&manager, bad));
    let reply = Loader::movie_loader_fetched(bad, &mut manager, false, None, Decoded::Nothing, true);
    assert_eq!(reply.steps, vec![Action::Fail { handle: bad }]);
    Loader::movie_loader_failed(bad, &mut manager).unwrap();
    good_history.push(status(&manager, good));
    bad_history.push(status(&manager, bad));
    Loader::movie_loader_complete(good, &mut manager).unwrap();
    good_history.push(status(&manager, good));
    bad_history.push(status(&manager, bad));

    assert_eq!(
        good_history,
        vec![
            LoaderStatus::Pending,
            LoaderStatus::Parsing,
            LoaderStatus::Parsing,
            LoaderStatus::Succeeded
        ]
    );
    assert_eq!(
        bad_history,
        vec![
            LoaderStatus::Pending,
            LoaderStatus::Pending,
            LoaderStatus::Failed,
            LoaderStatus::Failed
        ]
    );
}

#[test]
fn load_bytes_into_clip_tiny_swf() {
    let mut manager = LoadManager::new();
    let handle = manager.load_movie_into_clip_bytes(CLIP, info(), None);
    let opened = Loader::movie_loader_bytes(handle, &manager, true, false, true).unwrap();
    assert!(!opened.contains(&dispatch(Event::Open)));

    let body = MovieBody::sniff(&SWF_BYTES);
    let reply = Loader::movie_loader_data(handle, &mut manager, &body, Decoded::Movie(MOVIE), true);
    assert_eq!(reply.steps[1], dispatch(Event::Progress { loaded: 0, total: SWF_BYTES.len() }));
    assert_eq!(
        reply.steps.last(),
        Some(&Action::PreloadTick { handle, max_ops: 10000, max_millis: 1 })
    );

    let report = PreloadReport::Preloaded { finished: true, loaded: 8, total: 8 };
    let outcome = Loader::preload_tick(handle, &manager, report).unwrap();
    assert!(outcome.finished);
    assert_eq!(outcome.steps.last(), Some(&Action::Complete { handle }));
    let completed = Loader::movie_loader_complete(handle, &mut manager).unwrap();
    assert_eq!(
        completed,
        vec![Action::SetLoaderStream { loader_info: INFO, stream: LoaderStream::Swf { clip: CLIP } }]
    );
    assert_eq!(status(&manager, handle), LoaderStatus::Succeeded);

    let mut all = opened;
    all.extend(reply.steps);
    all.extend(outcome.steps);
    all.extend(completed);
    assert!(!heard(&all).contains(&dispatch(Event::Open)));
}

#[test]
fn cancellation() {
    let mut manager = LoadManager::new();
    let handle = manager.load_movie_into_clip(CLIP, info(), None);
    let bystander = manager.load_movie_into_clip(CLIP, legacy(), None);
    Loader::movie_loader(handle, &manager, true, false, true).unwrap();
    manager.remove_loader(handle);
    let removals = manager.removal_count();

    let body = MovieBody::sniff(&SWF_BYTES);
    let reply =
        Loader::movie_loader_fetched(handle, &mut manager, false, Some(&body), Decoded::Movie(MOVIE), true);
    assert_eq!(reply.error, Some(Error::Cancelled));
    assert!(reply.steps.is_empty());

    let reply = Loader::movie_loader_fetched(handle, &mut manager, false, None, Decoded::Nothing, true);
    assert_eq!(reply.error, Some(Error::Cancelled));
    assert!(reply.steps.is_empty());

    assert_eq!(Loader::movie_loader_start(handle, &manager), Err(Error::Cancelled));
    assert_eq!(Loader::movie_loader_progress(handle, &manager, 1, 2), Err(Error::Cancelled));
    assert_eq!(Loader::movie_loader_complete(handle, &mut manager), Err(Error::Cancelled));
    assert_eq!(Loader::movie_loader_error(handle, &manager), Err(Error::Cancelled));
    assert_eq!(Loader::movie_loader_failed(handle, &mut manager), Err(Error::Cancelled));
    let report = PreloadReport::Preloaded { finished: true, loaded: 1, total: 1 };
    assert!(matches!(Loader::preload_tick(handle, &manager, report), Err(Error::Cancelled)));
    assert!(matches!(
        Loader::movie_loader(handle, &manager, true, false, true),
        Err(Error::Cancelled)
    ));

    assert_eq!(manager.len(), 1);
    assert_eq!(manager.removal_count(), removals);
    assert_eq!(status(&manager, bystander), LoaderStatus::Pending);
    assert_eq!(parsed(&manager, bystander), None);
}

#[test]
fn swz_unwrap() {
    let swz = swz_bytes();
    let body = MovieBody::sniff(&swz);
    assert_eq!(body.outer_content(), ContentType::Unknown);
    assert_eq!(body.content(), ContentType::Swf);
    assert_eq!(body.unwrapped().map(|bytes| bytes.as_slice()), Some(&SWF_BYTES[..]));

    let mut manager = LoadManager::new();
    let handle = manager.load_movie_into_clip_bytes(CLIP, info(), None);
    let reply = Loader::movie_loader_data(handle, &mut manager, &body, Decoded::Movie(MOVIE), true);
    assert_eq!(reply.error, None);
    assert_eq!(
        reply.steps,
        vec![
            not_yet_loaded(),
            dispatch(Event::Progress { loaded: 0, total: SWF_BYTES.len() }),
            Action::BindDomain { movie: MOVIE, data: None },
            Action::ReplaceWithMovie { clip: CLIP, movie: Some(MOVIE), loader_info: Some(INFO) },
            immediate_tick(handle),
        ]
    );
    assert_eq!(
        reply.steps.iter().filter(|step| matches!(step, Action::PreloadTick { .. })).count(),
        1
    );
    assert_eq!(status(&manager, handle), LoaderStatus::Parsing);
}

#[test]
fn replacing_the_root_movie_with_swf() {
    let mut manager = LoadManager::new();
    let handle = manager.load_movie_into_clip(CLIP, info(), None);
    let body = MovieBody::sniff(&SWF_BYTES);
    let reply =
        Loader::movie_loader_fetched(handle, &mut manager, true, Some(&body), Decoded::Movie(MOVIE), true);
    assert_eq!(reply.error, None);
    assert_eq!(reply.steps, vec![Action::SetRootMovie]);
    assert_eq!(status(&manager, handle), LoaderStatus::Pending);
}

#[test]
fn replacing_the_root_movie_with_something_else_is_an_error() {
    let mut manager = LoadManager::new();
    let handle = manager.load_movie_into_clip(CLIP, legacy(), None);
    let body = MovieBody::sniff(&PNG_BYTES);
    let reply = Loader::replace_root_movie(handle, &manager, &body, Decoded::Bitmap);
    assert_eq!(reply.error, Some(Error::UnexpectedData(ContentType::Swf, ContentType::Png)));
    assert_eq!(
        reply.steps,
        vec![broadcast(LegacyMessage::OnLoadError), Action::Fail { handle }]
    );

    let swz = swz_bytes();
    let wrapped = MovieBody::sniff(&swz);
    let reply = Loader::replace_root_movie(handle, &manager, &wrapped, Decoded::Movie(MOVIE));
    assert_eq!(reply.error, Some(Error::UnexpectedData(ContentType::Swf, ContentType::Unknown)));

    let swf = MovieBody::sniff(&SWF_BYTES);
    let reply = Loader::replace_root_movie(handle, &manager, &swf, Decoded::Nothing);
    assert_eq!(reply.error, Some(Error::InvalidSwf));
    assert_eq!(
        reply.steps,
        vec![broadcast(LegacyMessage::OnLoadError), Action::Fail { handle }]
    );
}

#[test]
fn replacing_the_root_movie_after_the_record_is_gone() {
    let mut manager = LoadManager::new();
    let handle = manager.load_movie_into_clip(CLIP, legacy(), None);
    manager.remove_loader(handle);
    let png = MovieBody::sniff(&PNG_BYTES);
    let reply = Loader::replace_root_movie(handle, &manager, &png, Decoded::Bitmap);
    assert_eq!(reply.error, Some(Error::Cancelled));
    assert!(reply.steps.is_empty());
    let swf = MovieBody::sniff(&SWF_BYTES);
    let reply = Loader::replace_root_movie(handle, &manager, &swf, Decoded::Movie(MOVIE));
    assert_eq!(reply.error, Some(Error::Cancelled));
    assert!(reply.steps.is_empty());
    let reply =
        Loader::movie_loader_fetched(handle, &mut manager, true, Some(&swf), Decoded::Movie(MOVIE), true);
    assert_eq!(reply.error, Some(Error::Cancelled));
    assert!(reply.steps.is_empty());
}
