//! The loads that are not movies: form data, `LoadVars`, `URLLoader`, sound
//! and streams. Each applies the fetched bytes to its target and tells
//! script about it.

use crate::action::{
    Action, ByteCounter, DataValue, Error, Event, IoErrorKind, OnDataArgument, Payload, Reply,
};
use crate::manager::LoadManager;
use crate::record::{DataFormat, Handle, Loader, ObjectRef};
use vstd::prelude::*;

verus! {

/// The HTTP status that a `LoadVars` object hears after a fetch that
/// delivered.
pub const HTTP_OK: u16 = 200;

/// The HTTP status that a `LoadVars` object hears after a fetch that failed.
pub const HTTP_NOT_FOUND: u16 = 404;

/// The name-value pairs that a form-urlencoded body decodes to, in the order
/// of the body.
pub uninterp spec fn form_pairs(body: Seq<u8>) -> Seq<(Seq<char>, Seq<char>)>;

/// The text that a body decodes to as UTF-8: a byte order mark is looked
/// for and honoured, and malformed sequences are replaced.
pub uninterp spec fn decoded_text(body: Seq<u8>) -> Seq<char>;

/// The pairs of a list of variables, each string seen as its characters.
pub open spec fn pairs_of(variables: Seq<(String, String)>) -> Seq<(Seq<char>, Seq<char>)> {
    variables.map_values(|pair: (String, String)| (pair.0@, pair.1@))
}

/// Calls `url::form_urlencoded::parse` and collects what it yields. The
/// parser splits the body at `&`, skips empty pieces, splits each piece at
/// its first `=`, turns `+` into a space, undoes percent-encoding and reads
/// the bytes as UTF-8 with replacement. The pairs depend on the body alone;
/// the contract names them.
#[verifier::external_body]
fn parse_form(body: &[u8]) -> (r: Vec<(String, String)>)
    ensures
        pairs_of(r@) == form_pairs(body@),
{
    url::form_urlencoded::parse(body).into_owned().collect()
}

/// Calls `encoding_rs::UTF_8.decode`, which decodes the whole input with
/// byte-order-mark sniffing and replaces malformed sequences. The text
/// depends on the bytes alone; the contract names it. The decoder gives up
/// where sizing its output buffer overflows `usize`, which a body of at most
/// a quarter of the address space cannot cause.
#[verifier::external_body]
fn decode_utf8(body: &[u8]) -> (r: String)
    requires
        body@.len() <= usize::MAX / 4,
    ensures
        r@ == decoded_text(body@),
{
    encoding_rs::UTF_8.decode(body).0.into_owned()
}

/// What the host is to do with a fetched form.
pub struct FormOutcome {
    /// The decoded variables, in the order of the body.
    pub variables: Vec<(String, String)>,
    pub steps: Vec<Action>,
}

/// What the host is to do with the outcome of a `LoadVars` fetch.
pub struct LoadVarsOutcome {
    /// The decoded text of the body, where `onData` is called with it.
    pub text: Option<String>,
    pub steps: Vec<Action>,
}

/// The steps that apply a fetched form: the variables are set on the target,
/// and a target that is a movie clip gets an `onData` call queued and a
/// `Data` clip event.
pub open spec fn form_steps(target: ObjectRef, is_movie_clip: bool) -> Seq<Action> {
    seq![Action::SetVariables { object: target }] + (if is_movie_clip {
        seq![
            Action::QueueOnData { clip: target, object: target },
            Action::DispatchDataEvent { clip: target },
        ]
    } else {
        seq![]
    })
}

/// The steps that apply the outcome of a `LoadVars` fetch.
///
/// A body of `length` bytes sets `_bytesTotal`, and `_bytesLoaded` where it
/// is not empty; then come `onHTTPStatus(200)` and `onData` with the text,
/// or with undefined for an empty body. A fetch that failed gives
/// `onHTTPStatus(404)` and `onData(undefined)`.
pub open spec fn load_vars_steps(target: ObjectRef, length: Option<usize>) -> Seq<Action> {
    match length {
        Some(length) => seq![
            Action::SetByteCounter {
                object: target,
                counter: ByteCounter::BytesTotal,
                value: length,
            },
        ] + (if length > 0 {
            seq![
                Action::SetByteCounter {
                    object: target,
                    counter: ByteCounter::BytesLoaded,
                    value: length,
                },
            ]
        } else {
            seq![]
        }) + seq![
            Action::CallOnHttpStatus { object: target, status: HTTP_OK },
            Action::CallOnData {
                object: target,
                argument: if length == 0 {
                    OnDataArgument::Undefined
                } else {
                    OnDataArgument::Text
                },
            },
        ],
        None => seq![
            Action::CallOnHttpStatus { object: target, status: HTTP_NOT_FOUND },
            Action::CallOnData { object: target, argument: OnDataArgument::Undefined },
        ],
    }
}

/// The value that a `URLLoader` of the given format makes of a payload.
/// The variables format is not supported and yields undefined.
pub open spec fn data_value(format: DataFormat, payload: Payload) -> DataValue {
    match format {
        DataFormat::Binary => DataValue::ByteArray(payload),
        DataFormat::Text => DataValue::Text(payload),
        DataFormat::Variables => DataValue::Undefined,
    }
}

/// The steps that apply the outcome of a `URLLoader` fetch: `open`, the
/// data and `complete` after a fetch that delivered; the data cleared and
/// an `ioError` after one that failed.
pub open spec fn url_loader_steps(target: ObjectRef, format: DataFormat, fetched: bool) -> Seq<
    Action,
> {
    if fetched {
        seq![
            Action::Dispatch { target, event: Event::Open },
            Action::SetData { target, value: data_value(format, Payload::Body) },
            Action::Dispatch { target, event: Event::Complete },
        ]
    } else {
        seq![
            Action::SetData { target, value: data_value(format, Payload::Empty) },
            Action::Dispatch { target, event: Event::IoError(IoErrorKind::Stream) },
        ]
    }
}

/// The steps that apply the outcome of a sound fetch in the second script
/// dialect.
pub open spec fn sound_avm2_steps(target: ObjectRef, fetched: bool) -> Seq<Action> {
    if fetched {
        seq![
            Action::RegisterSound { object: target },
            Action::Dispatch { target, event: Event::Open },
            Action::Dispatch { target, event: Event::Complete },
        ]
    } else {
        seq![Action::Dispatch { target, event: Event::IoError(IoErrorKind::Stream) }]
    }
}

/// The steps that tell a sound object of the first script dialect how its
/// load ended: `onLoad` with the success, and, for a streaming sound that
/// loaded, playback at once. A load that failed starts nothing.
pub open spec fn sound_avm1_steps(target: ObjectRef, success: bool, is_streaming: bool) -> Seq<
    Action,
> {
    seq![Action::CallOnLoad { object: target, success }] + (if success && is_streaming {
        seq![Action::StartSound { object: target }]
    } else {
        seq![]
    })
}

/// The step that applies the outcome of a stream fetch.
pub open spec fn stream_steps(stream: ObjectRef, fetched: bool) -> Seq<Action> {
    if fetched {
        seq![Action::AppendToStream { stream }]
    } else {
        seq![Action::ReportStreamError { stream }]
    }
}

/// The steps in which the fetch of the root movie ends: a fetch that failed
/// is shown to the user; a body that parsed reports its header, gets the
/// parameters appended and becomes the root movie.
pub open spec fn root_movie_steps(fetched: bool, parsed: bool) -> Seq<Action> {
    if !fetched {
        seq![Action::ShowRootDownloadFailed]
    } else if !parsed {
        seq![]
    } else {
        seq![Action::ReportMetadata, Action::AppendParameters, Action::SetRootMovie]
    }
}

/// The error in which the fetch of the root movie ends, if any.
pub open spec fn root_movie_error(fetched: bool, parsed: bool) -> Option<Error> {
    if !fetched {
        Some(Error::FetchError)
    } else if !parsed {
        Some(Error::InvalidSwf)
    } else {
        None
    }
}

/// Executable form of `data_value`.
pub fn data_value_of(format: DataFormat, payload: Payload) -> (value: DataValue)
    ensures
        value == data_value(format, payload),
{
    match format {
        DataFormat::Binary => DataValue::ByteArray(payload),
        DataFormat::Text => DataValue::Text(payload),
        DataFormat::Variables => DataValue::Undefined,
    }
}

/// The URL under which the root movie is known: a spoofed URL takes
/// precedence over the URL that the response was rewritten to.
pub open spec fn root_url(spoofed: Option<Seq<char>>, rewritten: Seq<char>) -> Seq<char> {
    match spoofed {
        Some(url) => url,
        None => rewritten,
    }
}

/// The URL under which the root movie is known: a spoofed URL takes
/// precedence over the URL that the response was rewritten to.
pub fn root_movie_url(spoofed: Option<String>, rewritten: String) -> (url: String)
    ensures
        url@ == root_url(
            match spoofed {
                Some(u) => Some(u@),
                None => None,
            },
            rewritten@,
        ),
{
    match spoofed {
        Some(u) => u,
        None => rewritten,
    }
}

impl LoadManager {
    /// Whether `handle` finds the load of the root movie or nothing at all.
    pub open spec fn root_movie_or_gone(&self, handle: Handle) -> bool {
        self.records().contains_key(handle) ==> self.records()[handle] is RootMovie
    }

    /// Whether `handle` finds a form load or nothing at all.
    pub open spec fn form_or_gone(&self, handle: Handle) -> bool {
        self.records().contains_key(handle) ==> self.records()[handle] is Form
    }

    /// Whether `handle` finds a `LoadVars` load or nothing at all.
    pub open spec fn load_vars_or_gone(&self, handle: Handle) -> bool {
        self.records().contains_key(handle) ==> self.records()[handle] is LoadVars
    }

    /// Whether `handle` finds a `URLLoader` load or nothing at all.
    pub open spec fn url_loader_or_gone(&self, handle: Handle) -> bool {
        self.records().contains_key(handle) ==> self.records()[handle] is LoadURLLoader
    }

    /// Whether `handle` finds a sound load of the first script dialect or
    /// nothing at all.
    pub open spec fn sound_avm1_or_gone(&self, handle: Handle) -> bool {
        self.records().contains_key(handle) ==> self.records()[handle] is SoundAvm1
    }

    /// Whether `handle` finds a sound load of the second script dialect or
    /// nothing at all.
    pub open spec fn sound_avm2_or_gone(&self, handle: Handle) -> bool {
        self.records().contains_key(handle) ==> self.records()[handle] is SoundAvm2
    }

    /// Whether `handle` finds a stream load or nothing at all.
    pub open spec fn stream_or_gone(&self, handle: Handle) -> bool {
        self.records().contains_key(handle) ==> self.records()[handle] is NetStream
    }
}

impl Loader {
    /// Takes the outcome of the fetch of the root movie, and retires the
    /// load. A record that is gone yields `Cancelled`, and nothing is done.
    pub fn root_movie_loader(
        handle: Handle,
        manager: &mut LoadManager,
        fetched: bool,
        parsed: bool,
    ) -> (reply: Reply)
        requires
            old(manager).wf(),
            old(manager).removals() < u64::MAX,
            old(manager).root_movie_or_gone(handle),
        ensures
            final(manager).is_after_retiring(*old(manager), handle),
            !old(manager).records().contains_key(handle) ==> {
                &&& reply.steps@ == Seq::<Action>::empty()
                &&& reply.error == Some(Error::Cancelled)
            },
            old(manager).records().contains_key(handle) ==> {
                &&& reply.steps@ == root_movie_steps(fetched, parsed)
                &&& reply.error == root_movie_error(fetched, parsed)
            },
    {
        let mut steps: Vec<Action> = Vec::new();
        if manager.remove_loader(handle).is_none() {
            return Reply { steps, error: Some(Error::Cancelled) };
        }
        if !fetched {
            steps.push(Action::ShowRootDownloadFailed);
            assert(steps@ =~= root_movie_steps(fetched, parsed));
            return Reply { steps, error: Some(Error::FetchError) };
        }
        if !parsed {
            return Reply { steps, error: Some(Error::InvalidSwf) };
        }
        steps.push(Action::ReportMetadata);
        steps.push(Action::AppendParameters);
        steps.push(Action::SetRootMovie);
        assert(steps@ =~= root_movie_steps(fetched, parsed));
        Reply { steps, error: None }
    }

    /// Applies decoded form variables to the target of a form load, and
    /// retires the load. A record that is gone yields `Cancelled`.
    pub fn form_loaded(
        handle: Handle,
        manager: &mut LoadManager,
        variables: Vec<(String, String)>,
        is_movie_clip: bool,
    ) -> (r: Result<FormOutcome, Error>)
        requires
            old(manager).wf(),
            old(manager).removals() < u64::MAX,
            old(manager).form_or_gone(handle),
        ensures
            final(manager).is_after_retiring(*old(manager), handle),
            !old(manager).records().contains_key(handle) ==> r is Err && r->Err_0
                == Error::Cancelled,
            old(manager).records().contains_key(handle) ==> {
                &&& r is Ok
                &&& r->Ok_0.variables == variables
                &&& r->Ok_0.steps@ == form_steps(
                    old(manager).records()[handle]->Form_target_object,
                    is_movie_clip,
                )
            },
    {
        match manager.remove_loader(handle) {
            Some(Loader::Form { target_object, .. }) => {
                let mut steps: Vec<Action> = Vec::new();
                steps.push(Action::SetVariables { object: target_object });
                if is_movie_clip {
                    steps.push(Action::QueueOnData { clip: target_object, object: target_object });
                    steps.push(Action::DispatchDataEvent { clip: target_object });
                }
                assert(steps@ =~= form_steps(target_object, is_movie_clip));
                Ok(FormOutcome { variables, steps })
            },
            _ => Err(Error::Cancelled),
        }
    }

    /// Takes the outcome of the fetch of a form load, and retires the load:
    /// `response` is the body, or `None` where the fetch failed. A failed
    /// fetch is the load's error; a body is decoded as form-urlencoded and
    /// applied.
    pub fn form_loader(
        handle: Handle,
        manager: &mut LoadManager,
        response: Option<&[u8]>,
        is_movie_clip: bool,
    ) -> (r: Result<FormOutcome, Error>)
        requires
            old(manager).wf(),
            old(manager).removals() < u64::MAX,
            old(manager).form_or_gone(handle),
        ensures
            final(manager).is_after_retiring(*old(manager), handle),
            response.is_none() ==> r is Err && r->Err_0 == Error::FetchError,
            response.is_some() && !old(manager).records().contains_key(handle) ==> r is Err
                && r->Err_0 == Error::Cancelled,
            response.is_some() && old(manager).records().contains_key(handle) ==> {
                &&& r is Ok
                &&& pairs_of(r->Ok_0.variables@) == form_pairs(response.unwrap()@)
                &&& r->Ok_0.steps@ == form_steps(
                    old(manager).records()[handle]->Form_target_object,
                    is_movie_clip,
                )
            },
    {
        match response {
            None => {
                manager.remove_loader(handle);
                Err(Error::FetchError)
            },
            Some(body) => {
                let variables = parse_form(body);
                Loader::form_loaded(handle, manager, variables, is_movie_clip)
            },
        }
    }

    /// Applies the outcome of a `LoadVars` fetch, given the decoded text of
    /// the body, and retires the load: `response` is the length of the body
    /// and its text, or `None` where the fetch failed. A record that is gone
    /// yields `Cancelled`.
    pub fn load_vars_loaded(
        handle: Handle,
        manager: &mut LoadManager,
        response: Option<(usize, String)>,
    ) -> (r: Result<LoadVarsOutcome, Error>)
        requires
            old(manager).wf(),
            old(manager).removals() < u64::MAX,
            old(manager).load_vars_or_gone(handle),
        ensures
            final(manager).is_after_retiring(*old(manager), handle),
            !old(manager).records().contains_key(handle) ==> r is Err && r->Err_0
                == Error::Cancelled,
            old(manager).records().contains_key(handle) ==> {
                &&& r is Ok
                &&& r->Ok_0.steps@ == load_vars_steps(
                    old(manager).records()[handle]->LoadVars_target_object,
                    match response {
                        Some(body) => Some(body.0),
                        None => None,
                    },
                )
                &&& match response {
                    Some(body) if body.0 > 0 => r->Ok_0.text == Some(body.1),
                    _ => r->Ok_0.text.is_none(),
                }
            },
    {
        let target = match manager.remove_loader(handle) {
            Some(Loader::LoadVars { target_object, .. }) => target_object,
            _ => {
                return Err(Error::Cancelled);
            },
        };
        let mut steps: Vec<Action> = Vec::new();
        match response {
            Some((length, text)) => {
                steps.push(
                    Action::SetByteCounter {
                        object: target,
                        counter: ByteCounter::BytesTotal,
                        value: length,
                    },
                );
                if length > 0 {
                    steps.push(
                        Action::SetByteCounter {
                            object: target,
                            counter: ByteCounter::BytesLoaded,
                            value: length,
                        },
                    );
                }
                steps.push(Action::CallOnHttpStatus { object: target, status: HTTP_OK });
                if length == 0 {
                    steps.push(
                        Action::CallOnData { object: target, argument: OnDataArgument::Undefined },
                    );
                    assert(steps@ =~= load_vars_steps(target, Some(length)));
                    Ok(LoadVarsOutcome { text: None, steps })
                } else {
                    steps.push(
                        Action::CallOnData { object: target, argument: OnDataArgument::Text },
                    );
                    assert(steps@ =~= load_vars_steps(target, Some(length)));
                    Ok(LoadVarsOutcome { text: Some(text), steps })
                }
            },
            None => {
                steps.push(Action::CallOnHttpStatus { object: target, status: HTTP_NOT_FOUND });
                steps.push(
                    Action::CallOnData { object: target, argument: OnDataArgument::Undefined },
                );
                assert(steps@ =~= load_vars_steps(target, None));
                Ok(LoadVarsOutcome { text: None, steps })
            },
        }
    }

    /// Takes the outcome of the fetch of a `LoadVars` load, and retires the
    /// load: `response` is the body, or `None` where the fetch failed. The
    /// body is decoded as UTF-8 text; an empty body counts as a load
    /// without data.
    pub fn load_vars_loader(
        handle: Handle,
        manager: &mut LoadManager,
        response: Option<&[u8]>,
    ) -> (r: Result<LoadVarsOutcome, Error>)
        requires
            old(manager).wf(),
            old(manager).removals() < u64::MAX,
            old(manager).load_vars_or_gone(handle),
            response.is_some() ==> response.unwrap()@.len() <= usize::MAX / 4,
        ensures
            final(manager).is_after_retiring(*old(manager), handle),
            !old(manager).records().contains_key(handle) ==> r is Err && r->Err_0
                == Error::Cancelled,
            old(manager).records().contains_key(handle) ==> {
                &&& r is Ok
                &&& r->Ok_0.steps@ == load_vars_steps(
                    old(manager).records()[handle]->LoadVars_target_object,
                    match response {
                        Some(body) => Some(body@.len() as usize),
                        None => None,
                    },
                )
                &&& match response {
                    Some(body) if body@.len() > 0 => r->Ok_0.text.is_some()
                        && r->Ok_0.text.unwrap()@ == decoded_text(body@),
                    _ => r->Ok_0.text.is_none(),
                }
            },
    {
        match response {
            Some(body) => {
                let text = decode_utf8(body);
                Loader::load_vars_loaded(handle, manager, Some((body.len(), text)))
            },
            None => Loader::load_vars_loaded(handle, manager, None),
        }
    }

    /// Takes the outcome of the fetch of a `URLLoader` load, and retires the
    /// load. A record that is gone yields `Cancelled`.
    pub fn load_url_loader(handle: Handle, manager: &mut LoadManager, fetched: bool) -> (r: Result<
        Vec<Action>,
        Error,
    >)
        requires
            old(manager).wf(),
            old(manager).removals() < u64::MAX,
            old(manager).url_loader_or_gone(handle),
        ensures
            final(manager).is_after_retiring(*old(manager), handle),
            !old(manager).records().contains_key(handle) ==> r is Err && r->Err_0
                == Error::Cancelled,
            old(manager).records().contains_key(handle) ==> r is Ok && r->Ok_0@
                == url_loader_steps(
                old(manager).records()[handle]->LoadURLLoader_target_object,
                old(manager).records()[handle]->data_format,
                fetched,
            ),
    {
        let (target, format) = match manager.remove_loader(handle) {
            Some(Loader::LoadURLLoader { target_object, data_format, .. }) => (
                target_object,
                data_format,
            ),
            _ => {
                return Err(Error::Cancelled);
            },
        };
        let mut steps: Vec<Action> = Vec::new();
        if fetched {
            steps.push(Action::Dispatch { target, event: Event::Open });
            steps.push(Action::SetData { target, value: data_value_of(format, Payload::Body) });
            steps.push(Action::Dispatch { target, event: Event::Complete });
        } else {
            steps.push(Action::SetData { target, value: data_value_of(format, Payload::Empty) });
            steps.push(Action::Dispatch { target, event: Event::IoError(IoErrorKind::Stream) });
        }
        assert(steps@ =~= url_loader_steps(target, format, fetched));
        Ok(steps)
    }

    /// Takes the outcome of the fetch of a sound load in the first script
    /// dialect and says whether the body is to be registered with the audio
    /// backend: the sound object on which to register it, or `None` where
    /// the fetch failed. A record that is gone yields `Cancelled`.
    pub fn sound_loader_avm1(handle: Handle, manager: &LoadManager, fetched: bool) -> (r: Result<
        Option<ObjectRef>,
        Error,
    >)
        requires
            manager.sound_avm1_or_gone(handle),
        ensures
            !manager.records().contains_key(handle) ==> r is Err && r->Err_0 == Error::Cancelled,
            manager.records().contains_key(handle) ==> r is Ok && r->Ok_0 == (if fetched {
                Some(manager.records()[handle]->SoundAvm1_target_object)
            } else {
                None
            }),
    {
        match manager.record(handle) {
            Some(Loader::SoundAvm1 { target_object, .. }) => {
                if fetched {
                    Ok(Some(target_object))
                } else {
                    Ok(None)
                }
            },
            _ => Err(Error::Cancelled),
        }
    }

    /// Tells a sound object of the first script dialect how its load ended,
    /// and retires the load. The load succeeded where the fetch delivered
    /// and the audio backend took the body; only then does a streaming
    /// sound start to play.
    pub fn sound_loaded_avm1(
        handle: Handle,
        manager: &mut LoadManager,
        fetched: bool,
        registered: bool,
        is_streaming: bool,
    ) -> (r: Result<Vec<Action>, Error>)
        requires
            old(manager).wf(),
            old(manager).removals() < u64::MAX,
            old(manager).sound_avm1_or_gone(handle),
        ensures
            final(manager).is_after_retiring(*old(manager), handle),
            !old(manager).records().contains_key(handle) ==> r is Err && r->Err_0
                == Error::Cancelled,
            old(manager).records().contains_key(handle) ==> r is Ok && r->Ok_0@
                == sound_avm1_steps(
                old(manager).records()[handle]->SoundAvm1_target_object,
                fetched && registered,
                is_streaming,
            ),
    {
        match manager.remove_loader(handle) {
            Some(Loader::SoundAvm1 { target_object, .. }) => {
                let mut steps: Vec<Action> = Vec::new();
                let success = fetched && registered;
                steps.push(Action::CallOnLoad { object: target_object, success });
                if success && is_streaming {
                    steps.push(Action::StartSound { object: target_object });
                }
                assert(steps@ =~= sound_avm1_steps(
                    target_object,
                    fetched && registered,
                    is_streaming,
                ));
                Ok(steps)
            },
            _ => Err(Error::Cancelled),
        }
    }

    /// Takes the outcome of the fetch of a sound load in the second script
    /// dialect, and retires the load. A record that is gone yields
    /// `Cancelled`.
    pub fn sound_loader_avm2(handle: Handle, manager: &mut LoadManager, fetched: bool) -> (r:
        Result<Vec<Action>, Error>)
        requires
            old(manager).wf(),
            old(manager).removals() < u64::MAX,
            old(manager).sound_avm2_or_gone(handle),
        ensures
            final(manager).is_after_retiring(*old(manager), handle),
            !old(manager).records().contains_key(handle) ==> r is Err && r->Err_0
                == Error::Cancelled,
            old(manager).records().contains_key(handle) ==> r is Ok && r->Ok_0@
                == sound_avm2_steps(
                old(manager).records()[handle]->SoundAvm2_target_object,
                fetched,
            ),
    {
        let target = match manager.remove_loader(handle) {
            Some(Loader::SoundAvm2 { target_object, .. }) => target_object,
            _ => {
                return Err(Error::Cancelled);
            },
        };
        let mut steps: Vec<Action> = Vec::new();
        if fetched {
            steps.push(Action::RegisterSound { object: target });
            steps.push(Action::Dispatch { target, event: Event::Open });
            steps.push(Action::Dispatch { target, event: Event::Complete });
        } else {
            steps.push(Action::Dispatch { target, event: Event::IoError(IoErrorKind::Stream) });
        }
        assert(steps@ =~= sound_avm2_steps(target, fetched));
        Ok(steps)
    }

    /// Takes the outcome of the fetch of a stream load, and retires the
    /// load: the body goes into the stream's buffer, a failure is reported
    /// to the stream. A record that is gone yields `Cancelled`.
    pub fn stream_loader(handle: Handle, manager: &mut LoadManager, fetched: bool) -> (r: Result<
        Vec<Action>,
        Error,
    >)
        requires
            old(manager).wf(),
            old(manager).removals() < u64::MAX,
            old(manager).stream_or_gone(handle),
        ensures
            final(manager).is_after_retiring(*old(manager), handle),
            !old(manager).records().contains_key(handle) ==> r is Err && r->Err_0
                == Error::Cancelled,
            old(manager).records().contains_key(handle) ==> r is Ok && r->Ok_0@ == stream_steps(
                old(manager).records()[handle]->target_stream,
                fetched,
            ),
    {
        let stream = match manager.remove_loader(handle) {
            Some(Loader::NetStream { target_stream, .. }) => target_stream,
            _ => {
                return Err(Error::Cancelled);
            },
        };
        let mut steps: Vec<Action> = Vec::new();
        if fetched {
            steps.push(Action::AppendToStream { stream });
        } else {
            steps.push(Action::ReportStreamError { stream });
        }
        assert(steps@ =~= stream_steps(stream, fetched));
        Ok(steps)
    }
}

} // verus!
