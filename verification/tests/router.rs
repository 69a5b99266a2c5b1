use command_router::command::{Command, Field, Shape, SuccessShape};
use command_router::error::{CommandError, ErrorKind, HandlerFailure};
use command_router::greeting::greet;
use command_router::payload::{ArgValue, Payload};
use command_router::report::{fetch_report, ftp_report, read_report, store_report};
use command_router::request::{validate, CommandRequest};
use command_router::router::{
    report_conforms, route, shape_result, Action, CommandResult, Event, Invocation,
    InvocationState, SuccessPayload,
};
use command_router::text::str_equal;
use command_router::url::check_absolute_url;

fn text(s: &str) -> ArgValue {
    ArgValue::Text(s.to_string())
}

fn feed_payload(url: &str) -> Payload {
    let mut p = Payload::new();
    p.insert("url", text(url));
    p
}

fn s3_payload() -> Payload {
    let mut p = Payload::new();
    p.insert("bucket", text("b"));
    p.insert("key", text("k"));
    p.insert("payload", ArgValue::Bytes(vec![]));
    p.insert("credentials", text("invalid"));
    p
}

fn ftp_payload(host: &str) -> Payload {
    let mut p = Payload::new();
    p.insert("host", text(host));
    p.insert("credentials", text("user:secret"));
    p.insert("localPath", text("/tmp/report.csv"));
    p.insert("remotePath", text("/incoming/report.csv"));
    p
}

fn failure(kind: ErrorKind, message: &str) -> HandlerFailure {
    HandlerFailure { kind, message: message.to_string() }
}

/// Drives an invocation up to the point where the handler is asked for.
fn dispatch(name: &str, payload: Payload) -> (Invocation, CommandRequest) {
    let inv = Invocation::receive(name, payload);
    assert_eq!(inv.state(), InvocationState::Received);
    let (inv, action) = inv.step(Event::Advance);
    assert_eq!(action, Action::Continue);
    assert_eq!(inv.state(), InvocationState::Validated);
    let (inv, action) = inv.step(Event::Advance);
    assert_eq!(inv.state(), InvocationState::Dispatched);
    match action {
        Action::Invoke(request) => (inv, request),
        other => panic!("expected the handler to be asked for, got {:?}", other),
    }
}

#[test]
fn command_names_are_matched_exactly() {
    assert_eq!(Command::from_name("FetchFeed"), Some(Command::FetchFeed));
    assert_eq!(Command::from_name("ReadTextFile"), Some(Command::ReadTextFile));
    assert_eq!(Command::from_name("S3Upload"), Some(Command::S3Upload));
    assert_eq!(Command::from_name("FtpUpload"), Some(Command::FtpUpload));
    assert_eq!(Command::from_name("fetchfeed"), None);
    assert_eq!(Command::from_name("FetchFeed "), None);
    assert_eq!(Command::from_name("fetch_feed"), None);
    assert_eq!(Command::from_name("greet"), None);
    assert_eq!(Command::from_name(""), None);
}

#[test]
fn every_command_is_found_under_its_name() {
    for c in [Command::FetchFeed, Command::ReadTextFile, Command::S3Upload, Command::FtpUpload] {
        assert_eq!(Command::from_name(c.name()), Some(c));
    }
}

#[test]
fn expected_fields_of_each_command() {
    assert_eq!(Command::FetchFeed.fields(), vec![(Field::Url, Shape::AbsoluteUrl)]);
    assert_eq!(Command::ReadTextFile.fields(), vec![(Field::Path, Shape::Text)]);
    assert_eq!(
        Command::S3Upload.fields(),
        vec![
            (Field::Bucket, Shape::Text),
            (Field::Key, Shape::Text),
            (Field::Payload, Shape::Bytes),
            (Field::Credentials, Shape::Text),
        ]
    );
    assert_eq!(
        Command::FtpUpload.fields(),
        vec![
            (Field::Host, Shape::Text),
            (Field::Credentials, Shape::Text),
            (Field::LocalPath, Shape::Text),
            (Field::RemotePath, Shape::Text),
        ]
    );
}

#[test]
fn field_names_as_they_stand_in_a_payload() {
    assert_eq!(Field::Url.name(), "url");
    assert_eq!(Field::Path.name(), "path");
    assert_eq!(Field::Bucket.name(), "bucket");
    assert_eq!(Field::Key.name(), "key");
    assert_eq!(Field::Payload.name(), "payload");
    assert_eq!(Field::Credentials.name(), "credentials");
    assert_eq!(Field::Host.name(), "host");
    assert_eq!(Field::LocalPath.name(), "localPath");
    assert_eq!(Field::RemotePath.name(), "remotePath");
}

#[test]
fn error_kinds_of_each_command() {
    let all = [
        ErrorKind::UnknownCommand,
        ErrorKind::InvalidArguments,
        ErrorKind::NetworkError,
        ErrorKind::AuthenticationFailed,
        ErrorKind::RemoteRejected,
        ErrorKind::NotFound,
        ErrorKind::PermissionDenied,
        ErrorKind::InvalidEncoding,
        ErrorKind::LocalFileError,
    ];
    let allowed = |c: Command| -> Vec<ErrorKind> {
        all.iter().copied().filter(|k| c.may_fail_with(*k)).collect()
    };
    assert_eq!(
        allowed(Command::FetchFeed),
        vec![ErrorKind::InvalidArguments, ErrorKind::NetworkError]
    );
    assert_eq!(
        allowed(Command::ReadTextFile),
        vec![
            ErrorKind::InvalidArguments,
            ErrorKind::NotFound,
            ErrorKind::PermissionDenied,
            ErrorKind::InvalidEncoding,
        ]
    );
    assert_eq!(
        allowed(Command::S3Upload),
        vec![
            ErrorKind::InvalidArguments,
            ErrorKind::NetworkError,
            ErrorKind::AuthenticationFailed,
            ErrorKind::RemoteRejected,
        ]
    );
    assert_eq!(
        allowed(Command::FtpUpload),
        vec![
            ErrorKind::InvalidArguments,
            ErrorKind::NetworkError,
            ErrorKind::AuthenticationFailed,
            ErrorKind::RemoteRejected,
            ErrorKind::LocalFileError,
        ]
    );
}

#[test]
fn success_shapes() {
    assert_eq!(Command::FetchFeed.success_shape(), SuccessShape::Text);
    assert_eq!(Command::ReadTextFile.success_shape(), SuccessShape::Text);
    assert_eq!(Command::S3Upload.success_shape(), SuccessShape::UploadConfirmation);
    assert_eq!(Command::FtpUpload.success_shape(), SuccessShape::UploadConfirmation);
}

#[test]
fn validation_kinds_are_the_two_local_ones() {
    assert!(ErrorKind::UnknownCommand.is_validation());
    assert!(ErrorKind::InvalidArguments.is_validation());
    assert!(!ErrorKind::NetworkError.is_validation());
    assert!(!ErrorKind::AuthenticationFailed.is_validation());
    assert!(!ErrorKind::RemoteRejected.is_validation());
    assert!(!ErrorKind::NotFound.is_validation());
    assert!(!ErrorKind::PermissionDenied.is_validation());
    assert!(!ErrorKind::InvalidEncoding.is_validation());
    assert!(!ErrorKind::LocalFileError.is_validation());
}

#[test]
fn error_kind_names() {
    assert_eq!(ErrorKind::UnknownCommand.name(), "UnknownCommand");
    assert_eq!(ErrorKind::InvalidArguments.name(), "InvalidArguments");
    assert_eq!(ErrorKind::NetworkError.name(), "NetworkError");
    assert_eq!(ErrorKind::AuthenticationFailed.name(), "AuthenticationFailed");
    assert_eq!(ErrorKind::RemoteRejected.name(), "RemoteRejected");
    assert_eq!(ErrorKind::NotFound.name(), "NotFound");
    assert_eq!(ErrorKind::PermissionDenied.name(), "PermissionDenied");
    assert_eq!(ErrorKind::InvalidEncoding.name(), "InvalidEncoding");
    assert_eq!(ErrorKind::LocalFileError.name(), "LocalFileError");
}

#[test]
fn str_equal_compares_characters() {
    assert!(str_equal("", ""));
    assert!(str_equal("url", "url"));
    assert!(!str_equal("url", "urL"));
    assert!(!str_equal("url", "ur"));
    assert!(!str_equal("", "x"));
    assert!(str_equal("h\u{e9}llo", "h\u{e9}llo"));
    assert!(!str_equal("h\u{e9}llo", "hello"));
}

#[test]
fn absolute_urls() {
    assert!(check_absolute_url("https://example.com/feed.xml"));
    assert!(check_absolute_url("http://localhost:8080/a?b=c#d"));
    assert!(check_absolute_url("a:b"));
    assert!(check_absolute_url("svn+ssh://host/repo"));
    assert!(check_absolute_url("x-1.2:rest"));
}

#[test]
fn malformed_urls() {
    assert!(!check_absolute_url(""));
    assert!(!check_absolute_url(":"));
    assert!(!check_absolute_url("a:"));
    assert!(!check_absolute_url(":b"));
    assert!(!check_absolute_url("example.com/feed.xml"));
    assert!(!check_absolute_url("/feed.xml"));
    assert!(!check_absolute_url("1http://example.com"));
    assert!(!check_absolute_url("+x:rest"));
    assert!(!check_absolute_url("ht tp://example.com"));
    assert!(!check_absolute_url("http://example.com/a b"));
    assert!(!check_absolute_url("http://example.com/\n"));
    assert!(!check_absolute_url("http://ex\u{e4}mple.com/"));
    assert!(!check_absolute_url("h\u{e4}:rest"));
    assert!(!check_absolute_url("http_s://example.com"));
}

#[test]
fn payload_holds_what_was_inserted() {
    let mut p = Payload::new();
    assert_eq!(p.get("url"), None);
    p.insert("url", text("a:b"));
    p.insert("n", ArgValue::Number(7));
    assert_eq!(p.get("url"), Some(&text("a:b")));
    assert_eq!(p.get("n"), Some(&ArgValue::Number(7)));
    assert_eq!(p.get("URL"), None);
}

#[test]
fn payload_insert_replaces() {
    let mut p = Payload::new();
    p.insert("url", ArgValue::Null);
    p.insert("other", ArgValue::Bool(true));
    p.insert("url", text("https://example.com/"));
    assert_eq!(p.get("url"), Some(&text("https://example.com/")));
    assert_eq!(p.get("other"), Some(&ArgValue::Bool(true)));
    assert_eq!(
        route("FetchFeed", &p),
        Ok(CommandRequest::FetchFeed { url: "https://example.com/".to_string() })
    );
}

#[test]
fn unknown_command_is_refused_with_its_name() {
    for name in ["greet", "", "fetch_feed", "FetchFeeds", "DeleteEverything", "FETCHFEED"] {
        let err = route(name, &feed_payload("https://example.com/feed.xml")).unwrap_err();
        assert_eq!(err, CommandError::UnknownCommand { name: name.to_string() });
        assert_eq!(err.kind(), ErrorKind::UnknownCommand);
    }
}

#[test]
fn unknown_command_is_refused_before_arguments_are_examined() {
    // The payload is malformed for every command; the name decides.
    let err = route("Nope", &Payload::new()).unwrap_err();
    assert_eq!(err, CommandError::UnknownCommand { name: "Nope".to_string() });
}

#[test]
fn unknown_command_never_reaches_a_handler() {
    let inv = Invocation::receive("Nope", s3_payload());
    let (inv, action) = inv.step(Event::Advance);
    assert_eq!(inv, Invocation::Failed);
    assert_eq!(inv.state(), InvocationState::Failed);
    assert!(inv.is_terminal());
    assert_eq!(
        action,
        Action::Deliver(CommandResult::Failure(CommandError::UnknownCommand {
            name: "Nope".to_string()
        }))
    );
    let (inv, action) = inv.step(Event::Advance);
    assert_eq!(inv, Invocation::Failed);
    assert_eq!(action, Action::Ignore);
}

#[test]
fn missing_field_is_invalid_arguments() {
    assert_eq!(
        route("FetchFeed", &Payload::new()),
        Err(CommandError::InvalidArguments { field: Field::Url, expected: Shape::AbsoluteUrl })
    );
    assert_eq!(
        route("ReadTextFile", &Payload::new()),
        Err(CommandError::InvalidArguments { field: Field::Path, expected: Shape::Text })
    );
    assert_eq!(
        route("S3Upload", &Payload::new()),
        Err(CommandError::InvalidArguments { field: Field::Bucket, expected: Shape::Text })
    );
    assert_eq!(
        route("FtpUpload", &Payload::new()),
        Err(CommandError::InvalidArguments { field: Field::Host, expected: Shape::Text })
    );
}

#[test]
fn each_missing_field_of_s3_upload_is_named() {
    let full = [
        ("bucket", text("b"), Field::Bucket, Shape::Text),
        ("key", text("k"), Field::Key, Shape::Text),
        ("payload", ArgValue::Bytes(vec![1, 2, 3]), Field::Payload, Shape::Bytes),
        ("credentials", text("c"), Field::Credentials, Shape::Text),
    ];
    for skip in 0..full.len() {
        let mut p = Payload::new();
        for (i, (name, value, _, _)) in full.iter().enumerate() {
            if i != skip {
                p.insert(name, value.clone());
            }
        }
        assert_eq!(
            validate(Command::S3Upload, &p),
            Err(CommandError::InvalidArguments { field: full[skip].2, expected: full[skip].3 })
        );
    }
}

#[test]
fn each_missing_field_of_ftp_upload_is_named() {
    let full = [
        ("host", Field::Host),
        ("credentials", Field::Credentials),
        ("localPath", Field::LocalPath),
        ("remotePath", Field::RemotePath),
    ];
    for skip in 0..full.len() {
        let mut p = Payload::new();
        for (i, (name, _)) in full.iter().enumerate() {
            if i != skip {
                p.insert(name, text("x"));
            }
        }
        assert_eq!(
            validate(Command::FtpUpload, &p),
            Err(CommandError::InvalidArguments { field: full[skip].1, expected: Shape::Text })
        );
    }
}

#[test]
fn first_of_several_bad_fields_is_reported() {
    let mut p = Payload::new();
    p.insert("bucket", text("b"));
    p.insert("payload", ArgValue::Number(3));
    assert_eq!(
        validate(Command::S3Upload, &p),
        Err(CommandError::InvalidArguments { field: Field::Key, expected: Shape::Text })
    );
}

#[test]
fn mistyped_field_is_invalid_arguments() {
    let mut p = Payload::new();
    p.insert("path", ArgValue::Number(1));
    assert_eq!(
        route("ReadTextFile", &p),
        Err(CommandError::InvalidArguments { field: Field::Path, expected: Shape::Text })
    );
    let mut p = s3_payload();
    p.insert("payload", text("not bytes"));
    assert_eq!(
        route("S3Upload", &p),
        Err(CommandError::InvalidArguments { field: Field::Payload, expected: Shape::Bytes })
    );
    let mut p = Payload::new();
    p.insert("url", ArgValue::Bytes(vec![0x61, 0x3a, 0x62]));
    assert_eq!(
        route("FetchFeed", &p),
        Err(CommandError::InvalidArguments { field: Field::Url, expected: Shape::AbsoluteUrl })
    );
    let mut p = Payload::new();
    p.insert("path", ArgValue::Null);
    assert_eq!(
        route("ReadTextFile", &p),
        Err(CommandError::InvalidArguments { field: Field::Path, expected: Shape::Text })
    );
}

#[test]
fn malformed_url_is_invalid_arguments() {
    assert_eq!(
        route("FetchFeed", &feed_payload("example.com/feed.xml")),
        Err(CommandError::InvalidArguments { field: Field::Url, expected: Shape::AbsoluteUrl })
    );
    let inv = Invocation::receive("FetchFeed", feed_payload("not a url"));
    let (inv, action) = inv.step(Event::Advance);
    assert_eq!(inv, Invocation::Failed);
    assert_eq!(
        action,
        Action::Deliver(CommandResult::Failure(CommandError::InvalidArguments {
            field: Field::Url,
            expected: Shape::AbsoluteUrl
        }))
    );
}

#[test]
fn malformed_arguments_never_reach_a_handler() {
    let mut p = Payload::new();
    p.insert("host", text("ftp.example.com"));
    let inv = Invocation::receive("FtpUpload", p);
    let (inv, action) = inv.step(Event::Advance);
    assert!(inv.is_terminal());
    match action {
        Action::Deliver(CommandResult::Failure(e)) => {
            assert_eq!(e.kind(), ErrorKind::InvalidArguments);
            assert_eq!(
                e,
                CommandError::InvalidArguments { field: Field::Credentials, expected: Shape::Text }
            );
        }
        other => panic!("unexpected action {:?}", other),
    }
}

#[test]
fn fields_that_are_not_expected_are_ignored() {
    let mut p = feed_payload("https://example.com/feed.xml");
    p.insert("verbose", ArgValue::Bool(true));
    assert_eq!(
        route("FetchFeed", &p),
        Ok(CommandRequest::FetchFeed { url: "https://example.com/feed.xml".to_string() })
    );
}

#[test]
fn well_formed_requests_are_typed() {
    assert_eq!(
        route("ReadTextFile", &{
            let mut p = Payload::new();
            p.insert("path", text("/etc/hosts"));
            p
        }),
        Ok(CommandRequest::ReadTextFile { path: "/etc/hosts".to_string() })
    );
    let mut p = s3_payload();
    p.insert("payload", ArgValue::Bytes(vec![9, 8, 7]));
    assert_eq!(
        route("S3Upload", &p),
        Ok(CommandRequest::S3Upload {
            bucket: "b".to_string(),
            key: "k".to_string(),
            payload: vec![9, 8, 7],
            credentials: "invalid".to_string(),
        })
    );
    assert_eq!(
        route("FtpUpload", &ftp_payload("ftp.example.com")),
        Ok(CommandRequest::FtpUpload {
            host: "ftp.example.com".to_string(),
            credentials: "user:secret".to_string(),
            local_path: "/tmp/report.csv".to_string(),
            remote_path: "/incoming/report.csv".to_string(),
        })
    );
}

#[test]
fn request_knows_its_command() {
    let r = route("FtpUpload", &ftp_payload("h")).unwrap();
    assert_eq!(r.command(), Command::FtpUpload);
    let r = route("FetchFeed", &feed_payload("a:b")).unwrap();
    assert_eq!(r.command(), Command::FetchFeed);
}

#[test]
fn error_messages() {
    assert_eq!(
        CommandError::UnknownCommand { name: "Nope".to_string() }.message(),
        "unknown command: Nope"
    );
    assert_eq!(
        CommandError::InvalidArguments { field: Field::LocalPath, expected: Shape::Text }.message(),
        "invalid argument localPath: expected text"
    );
    assert_eq!(
        CommandError::InvalidArguments { field: Field::Payload, expected: Shape::Bytes }.message(),
        "invalid argument payload: expected bytes"
    );
    assert_eq!(
        CommandError::InvalidArguments { field: Field::Url, expected: Shape::AbsoluteUrl }
            .message(),
        "invalid argument url: expected an absolute URL"
    );
    let e = CommandError::Handler {
        kind: ErrorKind::RemoteRejected,
        message: "quota exceeded".to_string(),
    };
    assert_eq!(e.message(), "quota exceeded");
    assert_eq!(e.kind(), ErrorKind::RemoteRejected);
}

#[test]
fn handler_report_is_wrapped_unchanged() {
    assert_eq!(
        shape_result(Ok(SuccessPayload::Text("body".to_string()))),
        CommandResult::Success(SuccessPayload::Text("body".to_string()))
    );
    assert_eq!(
        shape_result(Ok(SuccessPayload::UploadConfirmation)),
        CommandResult::Success(SuccessPayload::UploadConfirmation)
    );
    for kind in [
        ErrorKind::NetworkError,
        ErrorKind::AuthenticationFailed,
        ErrorKind::RemoteRejected,
        ErrorKind::NotFound,
        ErrorKind::PermissionDenied,
        ErrorKind::InvalidEncoding,
        ErrorKind::LocalFileError,
    ] {
        assert_eq!(
            shape_result(Err(failure(kind, "detail 503"))),
            CommandResult::Failure(CommandError::Handler {
                kind,
                message: "detail 503".to_string()
            })
        );
    }
}

#[test]
fn fetch_feed_returns_the_body() {
    let (inv, request) = dispatch("FetchFeed", feed_payload("https://example.com/feed.xml"));
    assert_eq!(
        request,
        CommandRequest::FetchFeed { url: "https://example.com/feed.xml".to_string() }
    );
    assert_eq!(inv, Invocation::Dispatched { command: Command::FetchFeed });
    // The server answers 200 with this body.
    let report = fetch_report(200, "<rss>...</rss>".to_string(), String::new());
    assert_eq!(report, Ok(SuccessPayload::Text("<rss>...</rss>".to_string())));
    let (inv, action) = inv.step(Event::Finished(report));
    assert_eq!(inv, Invocation::Succeeded);
    assert_eq!(inv.state(), InvocationState::Succeeded);
    assert_eq!(
        action,
        Action::Deliver(CommandResult::Success(SuccessPayload::Text("<rss>...</rss>".to_string())))
    );
}

#[test]
fn read_text_file_missing_is_not_found() {
    let mut p = Payload::new();
    p.insert("path", text("/missing/file.txt"));
    let (inv, request) = dispatch("ReadTextFile", p);
    assert_eq!(request, CommandRequest::ReadTextFile { path: "/missing/file.txt".to_string() });
    let (inv, action) =
        inv.step(Event::Finished(Err(failure(ErrorKind::NotFound, "no such file"))));
    assert_eq!(inv, Invocation::Failed);
    match action {
        Action::Deliver(CommandResult::Failure(e)) => {
            assert_eq!(e.kind(), ErrorKind::NotFound);
            assert_eq!(e.message(), "no such file");
        }
        other => panic!("unexpected action {:?}", other),
    }
}

#[test]
fn s3_upload_with_invalid_credentials_fails_authentication() {
    let (inv, request) = dispatch("S3Upload", s3_payload());
    assert_eq!(
        request,
        CommandRequest::S3Upload {
            bucket: "b".to_string(),
            key: "k".to_string(),
            payload: vec![],
            credentials: "invalid".to_string(),
        }
    );
    let report = store_report(403, "credentials were refused".to_string());
    assert_eq!(report, Err(failure(ErrorKind::AuthenticationFailed, "credentials were refused")));
    let (inv, action) = inv.step(Event::Finished(report));
    assert_eq!(inv, Invocation::Failed);
    assert_eq!(
        action,
        Action::Deliver(CommandResult::Failure(CommandError::Handler {
            kind: ErrorKind::AuthenticationFailed,
            message: "credentials were refused".to_string(),
        }))
    );
}

#[test]
fn ftp_upload_unreachable_then_retried() {
    let (first, request) = dispatch("FtpUpload", ftp_payload("unreachable.invalid"));
    assert_eq!(request.command(), Command::FtpUpload);
    // No reply ever came from the host.
    let report = ftp_report(0, "host unreachable".to_string());
    let (first, action) = first.step(Event::Finished(report));
    assert_eq!(first, Invocation::Failed);
    assert_eq!(
        action,
        Action::Deliver(CommandResult::Failure(CommandError::Handler {
            kind: ErrorKind::NetworkError,
            message: "host unreachable".to_string(),
        }))
    );
    // The router does not retry: the failed invocation stays as it is.
    let (first, action) = first.step(Event::Advance);
    assert_eq!(first, Invocation::Failed);
    assert_eq!(action, Action::Ignore);
    // A second call is an invocation of its own.
    let (second, _) = dispatch("FtpUpload", ftp_payload("ftp.example.com"));
    let report = ftp_report(226, String::new());
    let (second, action) = second.step(Event::Finished(report));
    assert_eq!(second, Invocation::Succeeded);
    assert_eq!(
        action,
        Action::Deliver(CommandResult::Success(SuccessPayload::UploadConfirmation))
    );
}

#[test]
fn interleaved_invocations_keep_their_own_results() {
    let n = 8;
    let mut in_flight = Vec::new();
    for i in 0..n {
        let url = format!("https://example.com/feed{}.xml", i);
        let (inv, request) = dispatch("FetchFeed", feed_payload(&url));
        assert_eq!(request, CommandRequest::FetchFeed { url });
        in_flight.push((i, inv));
    }
    // The handlers finish in another order than they were started.
    in_flight.reverse();
    in_flight.swap(1, 5);
    for (i, inv) in in_flight {
        let body = format!("<rss>{}</rss>", i);
        let (inv, action) = inv.step(Event::Finished(Ok(SuccessPayload::Text(body.clone()))));
        assert_eq!(inv, Invocation::Succeeded);
        assert_eq!(action, Action::Deliver(CommandResult::Success(SuccessPayload::Text(body))));
    }
}

#[test]
fn abandoning_one_invocation_leaves_the_others_alone() {
    let (kept, _) = dispatch("FtpUpload", ftp_payload("ftp.example.com"));
    let (abandoned, request) = dispatch("FtpUpload", ftp_payload("slow.example.com"));
    let snapshot = kept.clone();
    // The caller withdraws: the invocation and its request are dropped.
    drop(abandoned);
    drop(request);
    assert_eq!(kept, snapshot);
    let (kept, action) = kept.step(Event::Finished(ftp_report(226, String::new())));
    assert_eq!(kept, Invocation::Succeeded);
    assert_eq!(
        action,
        Action::Deliver(CommandResult::Success(SuccessPayload::UploadConfirmation))
    );
}

#[test]
fn events_out_of_place_change_nothing() {
    let inv = Invocation::receive("FetchFeed", feed_payload("a:b"));
    let before = inv.clone();
    let (inv, action) = inv.step(Event::Finished(Ok(SuccessPayload::UploadConfirmation)));
    assert_eq!(inv, before);
    assert_eq!(action, Action::Ignore);

    let (inv, _) = inv.step(Event::Advance);
    let before = inv.clone();
    let (inv, action) =
        inv.step(Event::Finished(Err(failure(ErrorKind::NetworkError, "too early"))));
    assert_eq!(inv, before);
    assert_eq!(action, Action::Ignore);

    let (inv, _) = inv.step(Event::Advance);
    assert_eq!(inv.state(), InvocationState::Dispatched);
    assert!(!inv.is_terminal());
    // The handler is asked for once: going on while it runs does nothing.
    let (inv, action) = inv.step(Event::Advance);
    assert_eq!(inv, Invocation::Dispatched { command: Command::FetchFeed });
    assert_eq!(action, Action::Ignore);

    let (inv, _) = inv.step(Event::Finished(Ok(SuccessPayload::Text(String::new()))));
    assert_eq!(inv, Invocation::Succeeded);
    // One result per invocation: a second report is not delivered.
    let (inv, action) = inv.step(Event::Finished(Ok(SuccessPayload::Text("again".to_string()))));
    assert_eq!(inv, Invocation::Succeeded);
    assert_eq!(action, Action::Ignore);
}

#[test]
fn greeting_text() {
    assert_eq!(greet("World"), "Hello, World! You've been greeted from Rust!");
    assert_eq!(greet(""), "Hello, ! You've been greeted from Rust!");
}

#[test]
fn fetch_report_by_status() {
    for status in [200u16, 201, 204, 299] {
        assert_eq!(
            fetch_report(status, "body".to_string(), "unused".to_string()),
            Ok(SuccessPayload::Text("body".to_string()))
        );
    }
    for status in [0u16, 100, 199, 300, 301, 404, 500, 503, 65535] {
        assert_eq!(
            fetch_report(status, "body".to_string(), "HTTP error".to_string()),
            Err(failure(ErrorKind::NetworkError, "HTTP error"))
        );
    }
}

#[test]
fn read_report_decodes_text() {
    assert_eq!(
        read_report("h\u{e9}llo \u{1f600}".as_bytes().to_vec(), "unused".to_string()),
        Ok(SuccessPayload::Text("h\u{e9}llo \u{1f600}".to_string()))
    );
    assert_eq!(
        read_report(Vec::new(), "unused".to_string()),
        Ok(SuccessPayload::Text(String::new()))
    );
}

#[test]
fn read_report_refuses_bytes_that_are_no_text() {
    for bytes in [
        vec![0xffu8],
        vec![0x61, 0x80],
        vec![0xc3],
        vec![0xc0, 0xaf],
        vec![0xed, 0xa0, 0x80],
        vec![0xf4, 0x90, 0x80, 0x80],
    ] {
        assert_eq!(
            read_report(bytes, "notes.txt: not valid UTF-8".to_string()),
            Err(failure(ErrorKind::InvalidEncoding, "notes.txt: not valid UTF-8"))
        );
    }
}

#[test]
fn store_report_by_status() {
    for status in [200u16, 201, 204] {
        assert_eq!(store_report(status, "d".to_string()), Ok(SuccessPayload::UploadConfirmation));
    }
    for status in [401u16, 403] {
        assert_eq!(
            store_report(status, "d".to_string()),
            Err(failure(ErrorKind::AuthenticationFailed, "d"))
        );
    }
    for status in [0u16, 199, 300, 400, 404, 409, 500, 507] {
        assert_eq!(
            store_report(status, "d".to_string()),
            Err(failure(ErrorKind::RemoteRejected, "d"))
        );
    }
}

#[test]
fn ftp_report_by_reply() {
    for reply in [200u16, 226, 250, 299] {
        assert_eq!(ftp_report(reply, "d".to_string()), Ok(SuccessPayload::UploadConfirmation));
    }
    for reply in [331u16, 332, 430, 530] {
        assert_eq!(
            ftp_report(reply, "d".to_string()),
            Err(failure(ErrorKind::AuthenticationFailed, "d"))
        );
    }
    for reply in [450u16, 451, 452, 550, 551, 552, 553] {
        assert_eq!(
            ftp_report(reply, "d".to_string()),
            Err(failure(ErrorKind::RemoteRejected, "d"))
        );
    }
    for reply in [0u16, 120, 199, 300, 421, 425, 426, 449, 453, 500, 549, 554] {
        assert_eq!(
            ftp_report(reply, "d".to_string()),
            Err(failure(ErrorKind::NetworkError, "d"))
        );
    }
}

#[test]
fn reports_are_held_to_the_table_of_their_command() {
    let body = Ok(SuccessPayload::Text("x".to_string()));
    let done = Ok(SuccessPayload::UploadConfirmation);
    assert!(report_conforms(Command::FetchFeed, &body));
    assert!(report_conforms(Command::ReadTextFile, &body));
    assert!(!report_conforms(Command::S3Upload, &body));
    assert!(!report_conforms(Command::FtpUpload, &body));
    assert!(!report_conforms(Command::FetchFeed, &done));
    assert!(report_conforms(Command::S3Upload, &done));
    assert!(report_conforms(Command::FtpUpload, &done));
    assert!(report_conforms(Command::FtpUpload, &Err(failure(ErrorKind::LocalFileError, "m"))));
    assert!(!report_conforms(Command::S3Upload, &Err(failure(ErrorKind::LocalFileError, "m"))));
    assert!(!report_conforms(Command::FetchFeed, &Err(failure(ErrorKind::NotFound, "m"))));
    assert!(report_conforms(Command::ReadTextFile, &Err(failure(ErrorKind::NotFound, "m"))));
    assert!(!report_conforms(Command::ReadTextFile, &Err(failure(ErrorKind::UnknownCommand, "m"))));
}

#[test]
fn typed_request_is_checked() {
    assert_eq!(CommandRequest::FetchFeed { url: "https://example.com/".to_string() }.check(), Ok(()));
    assert_eq!(
        CommandRequest::FetchFeed { url: "example.com".to_string() }.check(),
        Err(CommandError::InvalidArguments { field: Field::Url, expected: Shape::AbsoluteUrl })
    );
    assert_eq!(CommandRequest::ReadTextFile { path: String::new() }.check(), Ok(()));
    assert_eq!(route("FtpUpload", &ftp_payload("h")).unwrap().check(), Ok(()));
}
