use load_manager::action::{
    Action, ByteCounter, DataValue, Error, Event, IoErrorKind, OnDataArgument, Payload,
};
use load_manager::data::{data_value_of, root_movie_url, HTTP_NOT_FOUND, HTTP_OK};
use load_manager::manager::LoadManager;
use load_manager::record::{DataFormat, Loader, ObjectRef};

const TARGET: ObjectRef = ObjectRef { id: 11 };

fn pair(name: &str, value: &str) -> (String, String) {
    (name.to_string(), value.to_string())
}

#[test]
fn root_movie_happy_path() {
    let url = root_movie_url(Some("http://spoof/".to_string()), "http://x/y.swf".to_string());
    assert_eq!(url, "http://spoof/");
    let mut manager = LoadManager::new();
    let handle = manager.load_root_movie();
    let reply = Loader::root_movie_loader(handle, &mut manager, true, true);
    assert_eq!(reply.error, None);
    assert!(manager.get_loader(handle).is_none());
    assert_eq!(
        reply.steps,
        vec![Action::ReportMetadata, Action::AppendParameters, Action::SetRootMovie]
    );
}

#[test]
fn root_movie_url_without_spoofing_is_the_rewritten_url() {
    let url = root_movie_url(None, "http://x/y.swf".to_string());
    assert_eq!(url, "http://x/y.swf");
}

#[test]
fn root_movie_fetch_failure_is_shown_to_the_user() {
    let mut manager = LoadManager::new();
    let handle = manager.load_root_movie();
    let reply = Loader::root_movie_loader(handle, &mut manager, false, false);
    assert_eq!(reply.error, Some(Error::FetchError));
    assert_eq!(reply.steps, vec![Action::ShowRootDownloadFailed]);
    let handle = manager.load_root_movie();
    let reply = Loader::root_movie_loader(handle, &mut manager, false, true);
    assert_eq!(reply.error, Some(Error::FetchError));
    let reply = Loader::root_movie_loader(handle, &mut manager, false, true);
    assert_eq!(reply.error, Some(Error::Cancelled));
    assert!(reply.steps.is_empty());
}

#[test]
fn root_movie_that_does_not_parse() {
    let mut manager = LoadManager::new();
    let handle = manager.load_root_movie();
    let reply = Loader::root_movie_loader(handle, &mut manager, true, false);
    assert_eq!(reply.error, Some(Error::InvalidSwf));
    assert!(reply.steps.is_empty());
}

#[test]
fn url_loader_binary_success() {
    let mut manager = LoadManager::new();
    let handle = manager.load_data_into_url_loader(TARGET, DataFormat::Binary);
    let steps = Loader::load_url_loader(handle, &mut manager, true).unwrap();
    assert_eq!(
        steps,
        vec![
            Action::Dispatch { target: TARGET, event: Event::Open },
            Action::SetData { target: TARGET, value: DataValue::ByteArray(Payload::Body) },
            Action::Dispatch { target: TARGET, event: Event::Complete },
        ]
    );
    assert!(!steps.iter().any(|step| matches!(
        step,
        Action::Dispatch { event: Event::IoError(_), .. }
    )));
    assert!(manager.get_loader(handle).is_none());
    assert_eq!(manager.removal_count(), 1);
    assert_eq!(Loader::load_url_loader(handle, &mut manager, true), Err(Error::Cancelled));
    assert_eq!(manager.removal_count(), 1);
}

#[test]
fn url_loader_failure() {
    let mut manager = LoadManager::new();
    let handle = manager.load_data_into_url_loader(TARGET, DataFormat::Text);
    let steps = Loader::load_url_loader(handle, &mut manager, false).unwrap();
    assert_eq!(
        steps,
        vec![
            Action::SetData { target: TARGET, value: DataValue::Text(Payload::Empty) },
            Action::Dispatch { target: TARGET, event: Event::IoError(IoErrorKind::Stream) },
        ]
    );
    assert_eq!(IoErrorKind::Stream.message(), "Error #2032: Stream Error");
    assert_eq!(IoErrorKind::Stream.code(), 2032);
    assert!(!steps.contains(&Action::Dispatch { target: TARGET, event: Event::Complete }));
}

#[test]
fn url_loader_formats() {
    assert_eq!(
        data_value_of(DataFormat::Binary, Payload::Body),
        DataValue::ByteArray(Payload::Body)
    );
    assert_eq!(data_value_of(DataFormat::Text, Payload::Body), DataValue::Text(Payload::Body));
    assert_eq!(data_value_of(DataFormat::Variables, Payload::Body), DataValue::Undefined);
    assert_eq!(data_value_of(DataFormat::Variables, Payload::Empty), DataValue::Undefined);
    assert_eq!(
        data_value_of(DataFormat::Binary, Payload::Empty),
        DataValue::ByteArray(Payload::Empty)
    );
}

#[test]
fn url_loader_cancelled() {
    let mut manager = LoadManager::new();
    let handle = manager.load_data_into_url_loader(TARGET, DataFormat::Binary);
    manager.remove_loader(handle);
    assert_eq!(Loader::load_url_loader(handle, &mut manager, true), Err(Error::Cancelled));
    assert_eq!(Loader::load_url_loader(handle, &mut manager, false), Err(Error::Cancelled));
}

#[test]
fn load_vars_empty_success() {
    let mut manager = LoadManager::new();
    let handle = manager.load_form_into_load_vars(TARGET);
    let outcome = Loader::load_vars_loader(handle, &mut manager, Some(b"")).unwrap();
    assert_eq!(
        outcome.steps,
        vec![
            Action::SetByteCounter { object: TARGET, counter: ByteCounter::BytesTotal, value: 0 },
            Action::CallOnHttpStatus { object: TARGET, status: 200 },
            Action::CallOnData { object: TARGET, argument: OnDataArgument::Undefined },
        ]
    );
    assert_eq!(outcome.text, None);
    assert!(!outcome.steps.iter().any(|step| matches!(
        step,
        Action::SetByteCounter { counter: ByteCounter::BytesLoaded, .. }
    )));
}

#[test]
fn load_vars_success_with_text() {
    let mut manager = LoadManager::new();
    let handle = manager.load_form_into_load_vars(TARGET);
    let body = "a=1&b=\u{e9}t\u{e9}".as_bytes();
    let outcome = Loader::load_vars_loader(handle, &mut manager, Some(body)).unwrap();
    assert_eq!(
        outcome.steps,
        vec![
            Action::SetByteCounter {
                object: TARGET,
                counter: ByteCounter::BytesTotal,
                value: body.len()
            },
            Action::SetByteCounter {
                object: TARGET,
                counter: ByteCounter::BytesLoaded,
                value: body.len()
            },
            Action::CallOnHttpStatus { object: TARGET, status: HTTP_OK },
            Action::CallOnData { object: TARGET, argument: OnDataArgument::Text },
        ]
    );
    assert_eq!(outcome.text.as_deref(), Some("a=1&b=\u{e9}t\u{e9}"));
}

#[test]
fn load_vars_text_replaces_malformed_bytes_and_drops_the_mark() {
    let mut manager = LoadManager::new();
    let handle = manager.load_form_into_load_vars(TARGET);
    let outcome = Loader::load_vars_loader(handle, &mut manager, Some(&[0x61, 0xff, 0x62])).unwrap();
    assert_eq!(outcome.text.as_deref(), Some("a\u{fffd}b"));
    let marked = [0xef, 0xbb, 0xbf, 0x68, 0x69];
    let handle = manager.load_form_into_load_vars(TARGET);
    let outcome = Loader::load_vars_loader(handle, &mut manager, Some(&marked)).unwrap();
    assert_eq!(outcome.text.as_deref(), Some("hi"));
    assert_eq!(
        outcome.steps[0],
        Action::SetByteCounter { object: TARGET, counter: ByteCounter::BytesTotal, value: 5 }
    );
}

#[test]
fn load_vars_failure() {
    let mut manager = LoadManager::new();
    let handle = manager.load_form_into_load_vars(TARGET);
    let outcome = Loader::load_vars_loader(handle, &mut manager, None).unwrap();
    assert_eq!(
        outcome.steps,
        vec![
            Action::CallOnHttpStatus { object: TARGET, status: HTTP_NOT_FOUND },
            Action::CallOnData { object: TARGET, argument: OnDataArgument::Undefined },
        ]
    );
    assert_eq!(HTTP_NOT_FOUND, 404);
    assert_eq!(outcome.text, None);
}

#[test]
fn load_vars_cancelled() {
    let mut manager = LoadManager::new();
    let handle = manager.load_form_into_load_vars(TARGET);
    manager.remove_loader(handle);
    assert!(matches!(
        Loader::load_vars_loader(handle, &mut manager, Some(b"x=1")),
        Err(Error::Cancelled)
    ));
    assert!(matches!(Loader::load_vars_loader(handle, &mut manager, None), Err(Error::Cancelled)));
}

#[test]
fn load_vars_loaded_takes_the_text_as_given() {
    let mut manager = LoadManager::new();
    let handle = manager.load_form_into_load_vars(TARGET);
    let outcome =
        Loader::load_vars_loaded(handle, &mut manager, Some((3, "abc".to_string()))).unwrap();
    assert_eq!(outcome.text.as_deref(), Some("abc"));
    let handle = manager.load_form_into_load_vars(TARGET);
    let outcome =
        Loader::load_vars_loaded(handle, &mut manager, Some((0, "abc".to_string()))).unwrap();
    assert_eq!(outcome.text, None);
    assert_eq!(ByteCounter::BytesLoaded.name(), "_bytesLoaded");
    assert_eq!(ByteCounter::BytesTotal.name(), "_bytesTotal");
}

#[test]
fn form_load_into_movie_clip() {
    let mut manager = LoadManager::new();
    let handle = manager.load_form_into_object(TARGET);
    let outcome =
        Loader::form_loader(handle, &mut manager, Some(b"a=1&b=hello%20world"), true).unwrap();
    assert_eq!(outcome.variables, vec![pair("a", "1"), pair("b", "hello world")]);
    assert_eq!(
        outcome.steps,
        vec![
            Action::SetVariables { object: TARGET },
            Action::QueueOnData { clip: TARGET, object: TARGET },
            Action::DispatchDataEvent { clip: TARGET },
        ]
    );
}

#[test]
fn form_load_into_a_plain_object() {
    let mut manager = LoadManager::new();
    let handle = manager.load_form_into_object(TARGET);
    let outcome = Loader::form_loader(handle, &mut manager, Some(b"x=1+2&&y&=z"), false).unwrap();
    assert_eq!(outcome.variables, vec![pair("x", "1 2"), pair("y", ""), pair("", "z")]);
    assert_eq!(outcome.steps, vec![Action::SetVariables { object: TARGET }]);
}

#[test]
fn form_load_of_an_empty_body() {
    let mut manager = LoadManager::new();
    let handle = manager.load_form_into_object(TARGET);
    let outcome = Loader::form_loader(handle, &mut manager, Some(b""), false).unwrap();
    assert!(outcome.variables.is_empty());
    assert_eq!(outcome.steps, vec![Action::SetVariables { object: TARGET }]);
}

#[test]
fn form_load_fetch_failure_and_cancellation() {
    let mut manager = LoadManager::new();
    let handle = manager.load_form_into_object(TARGET);
    assert!(matches!(
        Loader::form_loader(handle, &mut manager, None, true),
        Err(Error::FetchError)
    ));
    assert!(manager.get_loader(handle).is_none());
    assert!(matches!(
        Loader::form_loader(handle, &mut manager, Some(b"a=1"), true),
        Err(Error::Cancelled)
    ));
    assert!(matches!(
        Loader::form_loader(handle, &mut manager, None, true),
        Err(Error::FetchError)
    ));
    assert!(matches!(
        Loader::form_loaded(handle, &mut manager, vec![pair("a", "1")], true),
        Err(Error::Cancelled)
    ));
}

#[test]
fn sound_of_the_first_dialect() {
    let mut manager = LoadManager::new();
    let handle = manager.load_sound_avm1(TARGET);
    assert_eq!(Loader::sound_loader_avm1(handle, &manager, true), Ok(Some(TARGET)));
    assert_eq!(Loader::sound_loader_avm1(handle, &manager, false), Ok(None));
    assert!(manager.get_loader(handle).is_some());
    let cases = [
        (true, true, false, true),
        (true, false, false, false),
        (true, false, true, false),
        (false, true, true, false),
        (false, false, true, false),
        (true, true, true, true),
    ];
    for (fetched, registered, is_streaming, success) in cases {
        let handle = manager.load_sound_avm1(TARGET);
        let mut expected = vec![Action::CallOnLoad { object: TARGET, success }];
        if success && is_streaming {
            expected.push(Action::StartSound { object: TARGET });
        }
        assert_eq!(
            Loader::sound_loaded_avm1(handle, &mut manager, fetched, registered, is_streaming),
            Ok(expected)
        );
        assert!(manager.get_loader(handle).is_none());
        assert_eq!(Loader::sound_loader_avm1(handle, &manager, true), Err(Error::Cancelled));
        assert_eq!(
            Loader::sound_loaded_avm1(handle, &mut manager, true, true, true),
            Err(Error::Cancelled)
        );
    }
}

#[test]
fn a_streaming_sound_that_failed_to_load_is_not_started() {
    let mut manager = LoadManager::new();
    let handle = manager.load_sound_avm1(TARGET);
    assert_eq!(
        Loader::sound_loaded_avm1(handle, &mut manager, false, false, true),
        Ok(vec![Action::CallOnLoad { object: TARGET, success: false }])
    );
    let handle = manager.load_sound_avm1(TARGET);
    assert_eq!(
        Loader::sound_loaded_avm1(handle, &mut manager, true, true, true),
        Ok(vec![
            Action::CallOnLoad { object: TARGET, success: true },
            Action::StartSound { object: TARGET },
        ])
    );
}

#[test]
fn sound_of_the_second_dialect() {
    let mut manager = LoadManager::new();
    let handle = manager.load_sound_avm2(TARGET);
    assert_eq!(
        Loader::sound_loader_avm2(handle, &mut manager, true),
        Ok(vec![
            Action::RegisterSound { object: TARGET },
            Action::Dispatch { target: TARGET, event: Event::Open },
            Action::Dispatch { target: TARGET, event: Event::Complete },
        ])
    );
    assert_eq!(Loader::sound_loader_avm2(handle, &mut manager, true), Err(Error::Cancelled));
    let handle = manager.load_sound_avm2(TARGET);
    assert_eq!(
        Loader::sound_loader_avm2(handle, &mut manager, false),
        Ok(vec![Action::Dispatch { target: TARGET, event: Event::IoError(IoErrorKind::Stream) }])
    );
    assert!(manager.get_loader(handle).is_none());
}

#[test]
fn stream_load() {
    let mut manager = LoadManager::new();
    let handle = manager.load_netstream(TARGET);
    assert_eq!(
        Loader::stream_loader(handle, &mut manager, true),
        Ok(vec![Action::AppendToStream { stream: TARGET }])
    );
    assert_eq!(Loader::stream_loader(handle, &mut manager, true), Err(Error::Cancelled));
    let handle = manager.load_netstream(TARGET);
    assert_eq!(
        Loader::stream_loader(handle, &mut manager, false),
        Ok(vec![Action::ReportStreamError { stream: TARGET }])
    );
    assert!(manager.get_loader(handle).is_none());
}

#[test]
fn a_finished_load_leaves_the_others_alone() {
    let mut manager = LoadManager::new();
    let form = manager.load_form_into_object(TARGET);
    let vars = manager.load_form_into_load_vars(TARGET);
    let stream = manager.load_netstream(TARGET);
    Loader::load_vars_loader(vars, &mut manager, None).unwrap();
    assert_eq!(manager.len(), 2);
    assert!(manager.get_loader(form).is_some());
    assert!(manager.get_loader(stream).is_some());
    assert_eq!(manager.removal_count(), 1);
}
