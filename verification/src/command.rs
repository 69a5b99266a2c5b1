//! The closed set of commands, and the argument fields each one expects.

use vstd::prelude::*;
use crate::error::ErrorKind;
use crate::text::str_equal;

verus! {

/// The shape that the value of an argument field must have.
#[derive(Clone, Copy, Debug, PartialEq, Eq, Structural)]
pub enum Shape {
    /// Any text.
    Text,
    /// A sequence of bytes.
    Bytes,
    /// Text that is a well-formed absolute URL.
    AbsoluteUrl,
}

impl Shape {
    /// The words that describe this shape to a person.
    pub open spec fn describe_spec(self) -> Seq<char> {
        match self {
            Shape::Text => "text"@,
            Shape::Bytes => "bytes"@,
            Shape::AbsoluteUrl => "an absolute URL"@,
        }
    }

    /// The words that describe this shape to a person.
    pub fn describe(self) -> (words: &'static str)
        ensures
            words@ == self.describe_spec(),
    {
        match self {
            Shape::Text => "text",
            Shape::Bytes => "bytes",
            Shape::AbsoluteUrl => "an absolute URL",
        }
    }
}

/// A named field of an argument payload.
#[derive(Clone, Copy, Debug, PartialEq, Eq, Structural)]
pub enum Field {
    Url,
    Path,
    Bucket,
    Key,
    Payload,
    Credentials,
    Host,
    LocalPath,
    RemotePath,
}

impl Field {
    /// The name under which the field stands in a payload.
    pub open spec fn name_spec(self) -> Seq<char> {
        match self {
            Field::Url => "url"@,
            Field::Path => "path"@,
            Field::Bucket => "bucket"@,
            Field::Key => "key"@,
            Field::Payload => "payload"@,
            Field::Credentials => "credentials"@,
            Field::Host => "host"@,
            Field::LocalPath => "localPath"@,
            Field::RemotePath => "remotePath"@,
        }
    }

    /// The name under which the field stands in a payload.
    pub fn name(self) -> (name: &'static str)
        ensures
            name@ == self.name_spec(),
    {
        match self {
            Field::Url => "url",
            Field::Path => "path",
            Field::Bucket => "bucket",
            Field::Key => "key",
            Field::Payload => "payload",
            Field::Credentials => "credentials",
            Field::Host => "host",
            Field::LocalPath => "localPath",
            Field::RemotePath => "remotePath",
        }
    }
}

/// What a handler hands back when it succeeds.
#[derive(Clone, Copy, Debug, PartialEq, Eq, Structural)]
pub enum SuccessShape {
    /// The text that was fetched or read.
    Text,
    /// The confirmation that an upload took place.
    UploadConfirmation,
}

/// One of the operations that the shell offers.
#[derive(Clone, Copy, Debug, PartialEq, Eq, Structural)]
pub enum Command {
    FetchFeed,
    ReadTextFile,
    S3Upload,
    FtpUpload,
}

impl Command {
    /// The name by which a caller asks for this command.
    pub open spec fn name_spec(self) -> Seq<char> {
        match self {
            Command::FetchFeed => "FetchFeed"@,
            Command::ReadTextFile => "ReadTextFile"@,
            Command::S3Upload => "S3Upload"@,
            Command::FtpUpload => "FtpUpload"@,
        }
    }

    /// The command that a name stands for, if it stands for one.
    pub open spec fn parse_spec(name: Seq<char>) -> Option<Command> {
        if name == "FetchFeed"@ {
            Some(Command::FetchFeed)
        } else if name == "ReadTextFile"@ {
            Some(Command::ReadTextFile)
        } else if name == "S3Upload"@ {
            Some(Command::S3Upload)
        } else if name == "FtpUpload"@ {
            Some(Command::FtpUpload)
        } else {
            None
        }
    }

    /// The fields that the command expects, in the order in which they are
    /// examined, each with the shape its value must have.
    pub open spec fn fields_spec(self) -> Seq<(Field, Shape)> {
        match self {
            Command::FetchFeed => seq![(Field::Url, Shape::AbsoluteUrl)],
            Command::ReadTextFile => seq![(Field::Path, Shape::Text)],
            Command::S3Upload => seq![
                (Field::Bucket, Shape::Text),
                (Field::Key, Shape::Text),
                (Field::Payload, Shape::Bytes),
                (Field::Credentials, Shape::Text),
            ],
            Command::FtpUpload => seq![
                (Field::Host, Shape::Text),
                (Field::Credentials, Shape::Text),
                (Field::LocalPath, Shape::Text),
                (Field::RemotePath, Shape::Text),
            ],
        }
    }

    /// Whether a failure of the given kind can be the result of this command.
    pub open spec fn may_fail_with_spec(self, kind: ErrorKind) -> bool {
        match self {
            Command::FetchFeed => kind == ErrorKind::InvalidArguments || kind
                == ErrorKind::NetworkError,
            Command::ReadTextFile => kind == ErrorKind::InvalidArguments || kind
                == ErrorKind::NotFound || kind == ErrorKind::PermissionDenied || kind
                == ErrorKind::InvalidEncoding,
            Command::S3Upload => kind == ErrorKind::InvalidArguments || kind
                == ErrorKind::AuthenticationFailed || kind == ErrorKind::NetworkError || kind
                == ErrorKind::RemoteRejected,
            Command::FtpUpload => kind == ErrorKind::InvalidArguments || kind
                == ErrorKind::AuthenticationFailed || kind == ErrorKind::NetworkError || kind
                == ErrorKind::LocalFileError || kind == ErrorKind::RemoteRejected,
        }
    }

    /// What the command hands back when it succeeds.
    pub open spec fn success_shape_spec(self) -> SuccessShape {
        match self {
            Command::FetchFeed | Command::ReadTextFile => SuccessShape::Text,
            Command::S3Upload | Command::FtpUpload => SuccessShape::UploadConfirmation,
        }
    }

    /// The name by which a caller asks for this command.
    pub fn name(self) -> (name: &'static str)
        ensures
            name@ == self.name_spec(),
    {
        match self {
            Command::FetchFeed => "FetchFeed",
            Command::ReadTextFile => "ReadTextFile",
            Command::S3Upload => "S3Upload",
            Command::FtpUpload => "FtpUpload",
        }
    }

    /// Looks a command up by its name. Names are matched exactly; any other
    /// name gives `None`.
    pub fn from_name(name: &str) -> (found: Option<Command>)
        ensures
            found == Command::parse_spec(name@),
    {
        if str_equal(name, "FetchFeed") {
            Some(Command::FetchFeed)
        } else if str_equal(name, "ReadTextFile") {
            Some(Command::ReadTextFile)
        } else if str_equal(name, "S3Upload") {
            Some(Command::S3Upload)
        } else if str_equal(name, "FtpUpload") {
            Some(Command::FtpUpload)
        } else {
            None
        }
    }

    /// The fields that the command expects, in the order in which they are
    /// examined, each with the shape its value must have.
    pub fn fields(self) -> (fields: Vec<(Field, Shape)>)
        ensures
            fields@ == self.fields_spec(),
    {
        let fields = match self {
            Command::FetchFeed => vec![(Field::Url, Shape::AbsoluteUrl)],
            Command::ReadTextFile => vec![(Field::Path, Shape::Text)],
            Command::S3Upload => vec![
                (Field::Bucket, Shape::Text),
                (Field::Key, Shape::Text),
                (Field::Payload, Shape::Bytes),
                (Field::Credentials, Shape::Text),
            ],
            Command::FtpUpload => vec![
                (Field::Host, Shape::Text),
                (Field::Credentials, Shape::Text),
                (Field::LocalPath, Shape::Text),
                (Field::RemotePath, Shape::Text),
            ],
        };
        assert(fields@ =~= self.fields_spec());
        fields
    }

    /// Whether a failure of the given kind can be the result of this command.
    pub fn may_fail_with(self, kind: ErrorKind) -> (may: bool)
        ensures
            may == self.may_fail_with_spec(kind),
    {
        match self {
            Command::FetchFeed => matches!(kind, ErrorKind::InvalidArguments | ErrorKind::NetworkError),
            Command::ReadTextFile => matches!(
                kind,
                ErrorKind::InvalidArguments | ErrorKind::NotFound | ErrorKind::PermissionDenied
                    | ErrorKind::InvalidEncoding
            ),
            Command::S3Upload => matches!(
                kind,
                ErrorKind::InvalidArguments | ErrorKind::AuthenticationFailed
                    | ErrorKind::NetworkError | ErrorKind::RemoteRejected
            ),
            Command::FtpUpload => matches!(
                kind,
                ErrorKind::InvalidArguments | ErrorKind::AuthenticationFailed
                    | ErrorKind::NetworkError | ErrorKind::LocalFileError
                    | ErrorKind::RemoteRejected
            ),
        }
    }

    /// What the command hands back when it succeeds.
    pub fn success_shape(self) -> (shape: SuccessShape)
        ensures
            shape == self.success_shape_spec(),
    {
        match self {
            Command::FetchFeed | Command::ReadTextFile => SuccessShape::Text,
            Command::S3Upload | Command::FtpUpload => SuccessShape::UploadConfirmation,
        }
    }
}

/// Every command is found again under its own name.
pub proof fn name_round_trip(command: Command)
    ensures
        Command::parse_spec(command.name_spec()) == Some(command),
{
    reveal_strlit("FetchFeed");
    reveal_strlit("ReadTextFile");
    reveal_strlit("S3Upload");
    reveal_strlit("FtpUpload");
    assert("FetchFeed"@.len() == 9 && "FtpUpload"@.len() == 9);
    assert("ReadTextFile"@.len() == 12 && "S3Upload"@.len() == 8);
    assert("FetchFeed"@[1] == 'e' && "FtpUpload"@[1] == 't');
}

/// A name that is found is the name of the command it was found as, so a
/// name outside the four stands for no command.
pub proof fn parsed_name_is_exact(name: Seq<char>)
    ensures
        match Command::parse_spec(name) {
            Some(command) => name == command.name_spec(),
            None => forall|command: Command| name != #[trigger] command.name_spec(),
        },
{
}

} // verus!
