//! What a handler reports, decided from what its transport came back with.
//!
//! The transports themselves are outside this library. Whoever runs one
//! hands over the plain outcome (a status, a reply code, the bytes read)
//! and gets back the report that the router then wraps.

use vstd::prelude::*;
use vstd::utf8::{decode_utf8, valid_utf8};
use crate::command::Command;
use crate::error::{ErrorKind, FailureView, HandlerFailure};
use crate::router::{report_conforms_spec, report_view, SuccessPayload, SuccessView};

verus! {

/// The error of `String::from_utf8`.
#[verifier::external_type_specification]
#[verifier::external_body]
pub struct ExFromUtf8Error(std::string::FromUtf8Error);

/// `String::from_utf8` succeeds exactly on bytes that are valid UTF-8, and
/// the string it then returns holds the characters that the bytes encode.
pub assume_specification[ String::from_utf8 ](vec: Vec<u8>) -> (decoded: Result<
    String,
    std::string::FromUtf8Error,
>)
    ensures
        decoded is Ok <==> valid_utf8(vec@),
        decoded is Ok ==> decoded->Ok_0@ == decode_utf8(vec@),
;

/// Whether an HTTP status says that the request succeeded.
pub open spec fn is_success_status(status: u16) -> bool {
    200 <= status < 300
}

/// The report of a fetch that got an answer with the given status and body:
/// the body on a success status, else a network error with the detail.
pub open spec fn fetch_report_spec(status: u16, body: Seq<char>, detail: Seq<char>) -> Result<
    SuccessView,
    FailureView,
> {
    if is_success_status(status) {
        Ok(SuccessView::Text(body))
    } else {
        Err(FailureView { kind: ErrorKind::NetworkError, message: detail })
    }
}

/// The report of reading a file whose bytes are at hand: the text that the
/// bytes encode, or an encoding error with the detail where they are not
/// valid UTF-8.
pub open spec fn read_report_spec(bytes: Seq<u8>, detail: Seq<char>) -> Result<
    SuccessView,
    FailureView,
> {
    if valid_utf8(bytes) {
        Ok(SuccessView::Text(decode_utf8(bytes)))
    } else {
        Err(FailureView { kind: ErrorKind::InvalidEncoding, message: detail })
    }
}

/// The kind of failure that the status of an object store stands for, if it
/// stands for one: none on a success status, refused credentials on 401 and
/// 403, a rejection by the store on every other status.
pub open spec fn store_failure_spec(status: u16) -> Option<ErrorKind> {
    if is_success_status(status) {
        None
    } else if status == 401 || status == 403 {
        Some(ErrorKind::AuthenticationFailed)
    } else {
        Some(ErrorKind::RemoteRejected)
    }
}

/// The kind of failure that the last reply of an FTP server stands for, if
/// it stands for one: none on a 2xx reply; refused credentials on 430, 530
/// and on a login left unfinished (331, 332); a rejection by the server on
/// the replies about the file or its storage (450, 451, 452, 550 to 553);
/// a network error on everything else, no reply at all (0) included.
pub open spec fn ftp_failure_spec(reply: u16) -> Option<ErrorKind> {
    if 200 <= reply < 300 {
        None
    } else if reply == 331 || reply == 332 || reply == 430 || reply == 530 {
        Some(ErrorKind::AuthenticationFailed)
    } else if (450 <= reply <= 452) || (550 <= reply <= 553) {
        Some(ErrorKind::RemoteRejected)
    } else {
        Some(ErrorKind::NetworkError)
    }
}

/// The report of an upload: the confirmation where nothing failed, else the
/// failure with the detail.
pub open spec fn upload_report_spec(failed: Option<ErrorKind>, detail: Seq<char>) -> Result<
    SuccessView,
    FailureView,
> {
    match failed {
        None => Ok(SuccessView::UploadConfirmation),
        Some(kind) => Err(FailureView { kind, message: detail }),
    }
}

/// Reports a fetch that got an answer with the given status and body.
pub fn fetch_report(status: u16, body: String, detail: String) -> (report: Result<
    SuccessPayload,
    HandlerFailure,
>)
    ensures
        report_view(report) == fetch_report_spec(status, body@, detail@),
{
    if 200 <= status && status < 300 {
        Ok(SuccessPayload::Text(body))
    } else {
        Err(HandlerFailure { kind: ErrorKind::NetworkError, message: detail })
    }
}

/// Reports the reading of a file whose bytes are at hand.
pub fn read_report(bytes: Vec<u8>, detail: String) -> (report: Result<
    SuccessPayload,
    HandlerFailure,
>)
    ensures
        report_view(report) == read_report_spec(bytes@, detail@),
{
    match String::from_utf8(bytes) {
        Ok(text) => Ok(SuccessPayload::Text(text)),
        Err(_) => Err(HandlerFailure { kind: ErrorKind::InvalidEncoding, message: detail }),
    }
}

/// Reports an upload to an object store that answered with the given status.
pub fn store_report(status: u16, detail: String) -> (report: Result<
    SuccessPayload,
    HandlerFailure,
>)
    ensures
        report_view(report) == upload_report_spec(store_failure_spec(status), detail@),
{
    if 200 <= status && status < 300 {
        Ok(SuccessPayload::UploadConfirmation)
    } else if status == 401 || status == 403 {
        Err(HandlerFailure { kind: ErrorKind::AuthenticationFailed, message: detail })
    } else {
        Err(HandlerFailure { kind: ErrorKind::RemoteRejected, message: detail })
    }
}

/// Reports an FTP upload whose session ended with the given reply.
pub fn ftp_report(reply: u16, detail: String) -> (report: Result<SuccessPayload, HandlerFailure>)
    ensures
        report_view(report) == upload_report_spec(ftp_failure_spec(reply), detail@),
{
    if 200 <= reply && reply < 300 {
        Ok(SuccessPayload::UploadConfirmation)
    } else if reply == 331 || reply == 332 || reply == 430 || reply == 530 {
        Err(HandlerFailure { kind: ErrorKind::AuthenticationFailed, message: detail })
    } else if (450 <= reply && reply <= 452) || (550 <= reply && reply <= 553) {
        Err(HandlerFailure { kind: ErrorKind::RemoteRejected, message: detail })
    } else {
        Err(HandlerFailure { kind: ErrorKind::NetworkError, message: detail })
    }
}

/// Every report made here is one that its command may give.
pub proof fn reports_conform(status: u16, bytes: Seq<u8>, text: Seq<char>, detail: Seq<char>)
    ensures
        report_conforms_spec(Command::FetchFeed, fetch_report_spec(status, text, detail)),
        report_conforms_spec(Command::ReadTextFile, read_report_spec(bytes, detail)),
        report_conforms_spec(
            Command::S3Upload,
            upload_report_spec(store_failure_spec(status), detail),
        ),
        report_conforms_spec(
            Command::FtpUpload,
            upload_report_spec(ftp_failure_spec(status), detail),
        ),
{
}

} // verus!
