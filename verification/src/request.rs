//! Typed requests, and the validation that turns a payload into one.

use vstd::prelude::*;
use crate::command::{Command, Field, Shape};
use crate::error::{CommandError, ErrorView};
use crate::payload::{ArgValue, ArgView, Payload};
use crate::url::{check_absolute_url, is_absolute_url};

verus! {

/// A command together with its typed arguments.
#[derive(Clone, Debug, PartialEq, Eq)]
pub enum CommandRequest {
    FetchFeed { url: String },
    ReadTextFile { path: String },
    S3Upload { bucket: String, key: String, payload: Vec<u8>, credentials: String },
    FtpUpload { host: String, credentials: String, local_path: String, remote_path: String },
}

/// The mathematical value of a [`CommandRequest`].
pub enum RequestView {
    FetchFeed { url: Seq<char> },
    ReadTextFile { path: Seq<char> },
    S3Upload { bucket: Seq<char>, key: Seq<char>, payload: Seq<u8>, credentials: Seq<char> },
    FtpUpload {
        host: Seq<char>,
        credentials: Seq<char>,
        local_path: Seq<char>,
        remote_path: Seq<char>,
    },
}

impl RequestView {
    /// The command that the request asks for.
    pub open spec fn command(self) -> Command {
        match self {
            RequestView::FetchFeed { .. } => Command::FetchFeed,
            RequestView::ReadTextFile { .. } => Command::ReadTextFile,
            RequestView::S3Upload { .. } => Command::S3Upload,
            RequestView::FtpUpload { .. } => Command::FtpUpload,
        }
    }

    /// Whether the arguments meet what their command asks of them beyond
    /// their types: the URL of a feed is a well-formed absolute URL.
    pub open spec fn is_valid(self) -> bool {
        match self {
            RequestView::FetchFeed { url } => is_absolute_url(url),
            _ => true,
        }
    }
}

impl View for CommandRequest {
    type V = RequestView;

    open spec fn view(&self) -> RequestView {
        match self {
            CommandRequest::FetchFeed { url } => RequestView::FetchFeed { url: url@ },
            CommandRequest::ReadTextFile { path } => RequestView::ReadTextFile { path: path@ },
            CommandRequest::S3Upload { bucket, key, payload, credentials } => {
                RequestView::S3Upload {
                    bucket: bucket@,
                    key: key@,
                    payload: payload@,
                    credentials: credentials@,
                }
            },
            CommandRequest::FtpUpload { host, credentials, local_path, remote_path } => {
                RequestView::FtpUpload {
                    host: host@,
                    credentials: credentials@,
                    local_path: local_path@,
                    remote_path: remote_path@,
                }
            },
        }
    }
}

impl CommandRequest {
    /// The command that the request asks for.
    pub fn command(&self) -> (command: Command)
        ensures
            command == self@.command(),
    {
        match self {
            CommandRequest::FetchFeed { .. } => Command::FetchFeed,
            CommandRequest::ReadTextFile { .. } => Command::ReadTextFile,
            CommandRequest::S3Upload { .. } => Command::S3Upload,
            CommandRequest::FtpUpload { .. } => Command::FtpUpload,
        }
    }

    /// Examines a request that was built in code rather than read from a
    /// payload. It is refused as `InvalidArguments` exactly when it is a
    /// request for a feed whose URL is not a well-formed absolute URL.
    pub fn check(&self) -> (outcome: Result<(), CommandError>)
        ensures
            outcome is Ok <==> self@.is_valid(),
            outcome is Err ==> outcome->Err_0 == (CommandError::InvalidArguments {
                field: Field::Url,
                expected: Shape::AbsoluteUrl,
            }),
    {
        match self {
            CommandRequest::FetchFeed { url } => {
                if check_absolute_url(url.as_str()) {
                    Ok(())
                } else {
                    Err(
                        CommandError::InvalidArguments {
                            field: Field::Url,
                            expected: Shape::AbsoluteUrl,
                        },
                    )
                }
            },
            _ => Ok(()),
        }
    }
}

/// Whether a value has the given shape.
pub open spec fn admits(shape: Shape, value: ArgView) -> bool {
    match (shape, value) {
        (Shape::Text, ArgView::Text(_)) => true,
        (Shape::Bytes, ArgView::Bytes(_)) => true,
        (Shape::AbsoluteUrl, ArgView::Text(text)) => is_absolute_url(text),
        _ => false,
    }
}

/// Whether the arguments hold the field, with a value of the expected shape.
pub open spec fn field_ok(args: Map<Seq<char>, ArgView>, entry: (Field, Shape)) -> bool {
    args.contains_key(entry.0.name_spec()) && admits(entry.1, args[entry.0.name_spec()])
}

/// Whether every field that the command expects is there, in its shape.
pub open spec fn well_formed(command: Command, args: Map<Seq<char>, ArgView>) -> bool {
    forall|i: int|
        0 <= i < command.fields_spec().len() ==> field_ok(args, #[trigger] command.fields_spec()[i])
}

/// Whether the `i`-th expected field is the first that is missing or has the
/// wrong shape.
pub open spec fn is_first_invalid(
    command: Command,
    args: Map<Seq<char>, ArgView>,
    i: int,
) -> bool {
    &&& 0 <= i < command.fields_spec().len()
    &&& !field_ok(args, command.fields_spec()[i])
    &&& forall|j: int| 0 <= j < i ==> field_ok(args, #[trigger] command.fields_spec()[j])
}

/// The text that the arguments hold in a field.
pub open spec fn text_at(args: Map<Seq<char>, ArgView>, field: Field) -> Seq<char> {
    match args[field.name_spec()] {
        ArgView::Text(text) => text,
        _ => Seq::empty(),
    }
}

/// The bytes that the arguments hold in a field.
pub open spec fn bytes_at(args: Map<Seq<char>, ArgView>, field: Field) -> Seq<u8> {
    match args[field.name_spec()] {
        ArgView::Bytes(bytes) => bytes,
        _ => Seq::empty(),
    }
}

/// The request that well-formed arguments make.
pub open spec fn request_of(command: Command, args: Map<Seq<char>, ArgView>) -> RequestView {
    match command {
        Command::FetchFeed => RequestView::FetchFeed { url: text_at(args, Field::Url) },
        Command::ReadTextFile => RequestView::ReadTextFile { path: text_at(args, Field::Path) },
        Command::S3Upload => RequestView::S3Upload {
            bucket: text_at(args, Field::Bucket),
            key: text_at(args, Field::Key),
            payload: bytes_at(args, Field::Payload),
            credentials: text_at(args, Field::Credentials),
        },
        Command::FtpUpload => RequestView::FtpUpload {
            host: text_at(args, Field::Host),
            credentials: text_at(args, Field::Credentials),
            local_path: text_at(args, Field::LocalPath),
            remote_path: text_at(args, Field::RemotePath),
        },
    }
}

/// What validation gives: the request where the arguments are well formed,
/// else the first expected field that is missing or has the wrong shape,
/// with the shape it should have had.
pub open spec fn validate_spec(command: Command, args: Map<Seq<char>, ArgView>) -> Result<
    RequestView,
    ErrorView,
> {
    if well_formed(command, args) {
        Ok(request_of(command, args))
    } else {
        let i = choose|i: int| is_first_invalid(command, args, i);
        Err(
            ErrorView::InvalidArguments {
                field: command.fields_spec()[i].0,
                expected: command.fields_spec()[i].1,
            },
        )
    }
}

/// The mathematical value of what validation or routing returns.
pub open spec fn outcome_view(outcome: Result<CommandRequest, CommandError>) -> Result<
    RequestView,
    ErrorView,
> {
    match outcome {
        Ok(request) => Ok(request@),
        Err(error) => Err(error@),
    }
}

/// The first place at which the arguments fail is the only such place.
pub proof fn first_invalid_is_unique(
    command: Command,
    args: Map<Seq<char>, ArgView>,
    i: int,
    j: int,
)
    requires
        is_first_invalid(command, args, i),
        is_first_invalid(command, args, j),
    ensures
        i == j,
{
    if i < j {
        assert(field_ok(args, command.fields_spec()[i]));
    } else if j < i {
        assert(field_ok(args, command.fields_spec()[j]));
    }
}

/// Arguments that fail first at the `i`-th field are refused with that
/// field and its expected shape.
pub proof fn first_invalid_decides(command: Command, args: Map<Seq<char>, ArgView>, i: int)
    requires
        is_first_invalid(command, args, i),
    ensures
        validate_spec(command, args) == Err::<RequestView, ErrorView>(
            ErrorView::InvalidArguments {
                field: command.fields_spec()[i].0,
                expected: command.fields_spec()[i].1,
            },
        ),
{
    let k = choose|k: int| is_first_invalid(command, args, k);
    first_invalid_is_unique(command, args, i, k);
}

/// Reads a field that must hold text, or text that is an absolute URL.
fn take_text(payload: &Payload, field: Field, shape: Shape) -> (taken: Result<String, CommandError>)
    requires
        shape != Shape::Bytes,
    ensures
        match taken {
            Ok(text) => field_ok(payload@, (field, shape)) && text@ == text_at(payload@, field),
            Err(error) => !field_ok(payload@, (field, shape)) && error
                == (CommandError::InvalidArguments { field, expected: shape }),
        },
{
    match payload.get(field.name()) {
        Some(ArgValue::Text(text)) => {
            if matches!(shape, Shape::AbsoluteUrl) && !check_absolute_url(text.as_str()) {
                Err(CommandError::InvalidArguments { field, expected: shape })
            } else {
                Ok(text.clone())
            }
        },
        _ => Err(CommandError::InvalidArguments { field, expected: shape }),
    }
}

/// Reads a field that must hold bytes.
fn take_bytes(payload: &Payload, field: Field) -> (taken: Result<Vec<u8>, CommandError>)
    ensures
        match taken {
            Ok(bytes) => field_ok(payload@, (field, Shape::Bytes)) && bytes@ == bytes_at(
                payload@,
                field,
            ),
            Err(error) => !field_ok(payload@, (field, Shape::Bytes)) && error
                == (CommandError::InvalidArguments { field, expected: Shape::Bytes }),
        },
{
    match payload.get(field.name()) {
        Some(ArgValue::Bytes(bytes)) => {
            let copy = bytes.clone();
            assert(copy@ =~= bytes@);
            Ok(copy)
        },
        _ => Err(CommandError::InvalidArguments { field, expected: Shape::Bytes }),
    }
}

/// Turns the arguments of a known command into a typed request.
///
/// The expected fields are examined in their order. The first one that is
/// missing, or whose value has the wrong shape, is reported as
/// `InvalidArguments` with its name and the shape it should have had.
/// Fields that the command does not expect are ignored. Nothing but the
/// payload is looked at.
pub fn validate(command: Command, payload: &Payload) -> (outcome: Result<
    CommandRequest,
    CommandError,
>)
    ensures
        outcome_view(outcome) == validate_spec(command, payload@),
{
    match command {
        Command::FetchFeed => {
            let url = match take_text(payload, Field::Url, Shape::AbsoluteUrl) {
                Ok(text) => text,
                Err(error) => {
                    proof {
                        first_invalid_decides(command, payload@, 0);
                    }
                    return Err(error);
                },
            };
            Ok(CommandRequest::FetchFeed { url })
        },
        Command::ReadTextFile => {
            let path = match take_text(payload, Field::Path, Shape::Text) {
                Ok(text) => text,
                Err(error) => {
                    proof {
                        first_invalid_decides(command, payload@, 0);
                    }
                    return Err(error);
                },
            };
            Ok(CommandRequest::ReadTextFile { path })
        },
        Command::S3Upload => {
            let bucket = match take_text(payload, Field::Bucket, Shape::Text) {
                Ok(text) => text,
                Err(error) => {
                    proof {
                        first_invalid_decides(command, payload@, 0);
                    }
                    return Err(error);
                },
            };
            let key = match take_text(payload, Field::Key, Shape::Text) {
                Ok(text) => text,
                Err(error) => {
                    proof {
                        first_invalid_decides(command, payload@, 1);
                    }
                    return Err(error);
                },
            };
            let bytes = match take_bytes(payload, Field::Payload) {
                Ok(bytes) => bytes,
                Err(error) => {
                    proof {
                        first_invalid_decides(command, payload@, 2);
                    }
                    return Err(error);
                },
            };
            let credentials = match take_text(payload, Field::Credentials, Shape::Text) {
                Ok(text) => text,
                Err(error) => {
                    proof {
                        first_invalid_decides(command, payload@, 3);
                    }
                    return Err(error);
                },
            };
            Ok(CommandRequest::S3Upload { bucket, key, payload: bytes, credentials })
        },
        Command::FtpUpload => {
            let host = match take_text(payload, Field::Host, Shape::Text) {
                Ok(text) => text,
                Err(error) => {
                    proof {
                        first_invalid_decides(command, payload@, 0);
                    }
                    return Err(error);
                },
            };
            let credentials = match take_text(payload, Field::Credentials, Shape::Text) {
                Ok(text) => text,
                Err(error) => {
                    proof {
                        first_invalid_decides(command, payload@, 1);
                    }
                    return Err(error);
                },
            };
            let local_path = match take_text(payload, Field::LocalPath, Shape::Text) {
                Ok(text) => text,
                Err(error) => {
                    proof {
                        first_invalid_decides(command, payload@, 2);
                    }
                    return Err(error);
                },
            };
            let remote_path = match take_text(payload, Field::RemotePath, Shape::Text) {
                Ok(text) => text,
                Err(error) => {
                    proof {
                        first_invalid_decides(command, payload@, 3);
                    }
                    return Err(error);
                },
            };
            Ok(CommandRequest::FtpUpload { host, credentials, local_path, remote_path })
        },
    }
}

/// A request that validation lets through is a request for the command that
/// was asked for, and is valid.
pub proof fn validated_request_is_valid(command: Command, args: Map<Seq<char>, ArgView>)
    requires
        validate_spec(command, args) is Ok,
    ensures
        validate_spec(command, args)->Ok_0.command() == command,
        validate_spec(command, args)->Ok_0.is_valid(),
{
    if command == Command::FetchFeed {
        assert(field_ok(args, command.fields_spec()[0]));
    }
}

/// Arguments in which an expected field is missing or has the wrong shape
/// are refused as `InvalidArguments`, whatever else they hold.
pub proof fn malformed_field_is_invalid(command: Command, args: Map<Seq<char>, ArgView>, i: int)
    requires
        0 <= i < command.fields_spec().len(),
        !field_ok(args, command.fields_spec()[i]),
    ensures
        validate_spec(command, args) is Err,
        validate_spec(command, args)->Err_0 is InvalidArguments,
{
}

/// Arguments that lack a field which the command expects are refused as
/// `InvalidArguments`, whatever else they hold.
pub proof fn missing_field_is_invalid(command: Command, args: Map<Seq<char>, ArgView>, i: int)
    requires
        0 <= i < command.fields_spec().len(),
        !args.contains_key(command.fields_spec()[i].0.name_spec()),
    ensures
        validate_spec(command, args) is Err,
        validate_spec(command, args)->Err_0 is InvalidArguments,
{
    malformed_field_is_invalid(command, args, i);
}

} // verus!
