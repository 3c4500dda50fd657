//! The failures a caller can see: a status and a human-readable reason.

use vstd::prelude::*;
use vstd::string::StringExecFns;

verus! {

/// The two kinds of failure that callers tell apart.
#[derive(Clone, Copy, Debug, PartialEq, Eq, Structural)]
pub enum Status {
    /// The caller passed something unusable: an unknown format name or a
    /// malformed encoded payload.
    InvalidArg,
    /// Anything else that went wrong while serving the request.
    GenericFailure,
}

/// A failed operation, as reported to the caller.
#[derive(Clone, Debug, PartialEq, Eq)]
pub struct ClipboardError {
    pub status: Status,
    pub reason: String,
}

/// Every step that can fail, one variant per message the library produces.
#[derive(Clone, Copy, Debug, PartialEq, Eq, Structural)]
pub enum Failure {
    CreateContext,
    GetText,
    SetText,
    GetHtml,
    SetHtml,
    GetRichText,
    SetRichText,
    GetImage,
    ConvertToPng,
    InvalidBase64,
    CreateImage,
    SetImage,
    GetFiles,
    SetFiles,
    GetBuffer,
    SetBuffer,
    SetContents,
    UnsupportedFormat,
    GetAvailableFormats,
    ClearClipboard,
    TaskJoin,
    StartWatcher,
}

impl Failure {
    /// The status reported for this step. What the caller passed and cannot
    /// be used is an invalid argument: text that is not base64, bytes that
    /// are no image, a format name that is not known. All else is a generic
    /// failure.
    pub open spec fn spec_status(self) -> Status {
        match self {
            Failure::InvalidBase64 | Failure::CreateImage | Failure::UnsupportedFormat =>
                Status::InvalidArg,
            _ => Status::GenericFailure,
        }
    }

    /// The fixed text that opens the reason, up to and including `": "`.
    pub open spec fn spec_prefix(self) -> Seq<char> {
        match self {
            Failure::CreateContext => "Failed to create clipboard context: "@,
            Failure::GetText => "Failed to get text: "@,
            Failure::SetText => "Failed to set text: "@,
            Failure::GetHtml => "Failed to get HTML: "@,
            Failure::SetHtml => "Failed to set HTML: "@,
            Failure::GetRichText => "Failed to get rich text: "@,
            Failure::SetRichText => "Failed to set rich text: "@,
            Failure::GetImage => "Failed to get image: "@,
            Failure::ConvertToPng => "Failed to convert image to PNG: "@,
            Failure::InvalidBase64 => "Invalid base64 data: "@,
            Failure::CreateImage => "Failed to create image from bytes: "@,
            Failure::SetImage => "Failed to set image: "@,
            Failure::GetFiles => "Failed to get files: "@,
            Failure::SetFiles => "Failed to set files: "@,
            Failure::GetBuffer => "Failed to get buffer: "@,
            Failure::SetBuffer => "Failed to set buffer: "@,
            Failure::SetContents => "Failed to set contents: "@,
            Failure::UnsupportedFormat => "Unsupported format: "@,
            Failure::GetAvailableFormats => "Failed to get available formats: "@,
            Failure::ClearClipboard => "Failed to clear clipboard: "@,
            Failure::TaskJoin => "Task join error: "@,
            Failure::StartWatcher => "Failed to start clipboard watcher: "@,
        }
    }

    #[verifier::when_used_as_spec(spec_status)]
    pub fn status(self) -> (status: Status)
        ensures
            status == self.spec_status(),
    {
        match self {
            Failure::InvalidBase64 | Failure::CreateImage | Failure::UnsupportedFormat => {
                Status::InvalidArg
            },
            _ => Status::GenericFailure,
        }
    }

    pub fn prefix(self) -> (prefix: &'static str)
        ensures
            prefix@ == self.spec_prefix(),
    {
        match self {
            Failure::CreateContext => "Failed to create clipboard context: ",
            Failure::GetText => "Failed to get text: ",
            Failure::SetText => "Failed to set text: ",
            Failure::GetHtml => "Failed to get HTML: ",
            Failure::SetHtml => "Failed to set HTML: ",
            Failure::GetRichText => "Failed to get rich text: ",
            Failure::SetRichText => "Failed to set rich text: ",
            Failure::GetImage => "Failed to get image: ",
            Failure::ConvertToPng => "Failed to convert image to PNG: ",
            Failure::InvalidBase64 => "Invalid base64 data: ",
            Failure::CreateImage => "Failed to create image from bytes: ",
            Failure::SetImage => "Failed to set image: ",
            Failure::GetFiles => "Failed to get files: ",
            Failure::SetFiles => "Failed to set files: ",
            Failure::GetBuffer => "Failed to get buffer: ",
            Failure::SetBuffer => "Failed to set buffer: ",
            Failure::SetContents => "Failed to set contents: ",
            Failure::UnsupportedFormat => "Unsupported format: ",
            Failure::GetAvailableFormats => "Failed to get available formats: ",
            Failure::ClearClipboard => "Failed to clear clipboard: ",
            Failure::TaskJoin => "Task join error: ",
            Failure::StartWatcher => "Failed to start clipboard watcher: ",
        }
    }

    /// The error reported when this step fails with the given detail.
    pub fn error(self, detail: &str) -> (error: ClipboardError)
        ensures
            error.reports(self, detail@),
    {
        ClipboardError { status: self.status(), reason: String::from_str(self.prefix()).concat(detail) }
    }

    /// Passes a success through and turns a failure detail into this step's
    /// error.
    pub fn outcome<T>(self, result: Result<T, String>) -> (outcome: Result<T, ClipboardError>)
        ensures
            match result {
                Ok(value) => outcome == Ok::<T, ClipboardError>(value),
                Err(detail) => outcome matches Err(error) && error.reports(self, detail@),
            },
    {
        match result {
            Ok(value) => Ok(value),
            Err(detail) => Err(self.error(detail.as_str())),
        }
    }
}

impl ClipboardError {
    /// Whether this is the error of the given step with the given detail:
    /// the status of the step, and as reason its fixed text followed by the
    /// detail.
    pub open spec fn reports(self, failure: Failure, detail: Seq<char>) -> bool {
        &&& self.status == failure.spec_status()
        &&& self.reason@ == failure.spec_prefix() + detail
    }

    /// Whether this is an error of the given step, whatever its detail: the
    /// status of the step, and a reason that opens with its fixed text.
    pub open spec fn stems_from(self, failure: Failure) -> bool {
        exists|detail: Seq<char>| self.reports(failure, detail)
    }

    /// The error of the Wayland backend where the platform has none.
    pub fn wayland_unsupported() -> (error: ClipboardError)
        ensures
            error.status == Status::GenericFailure,
            error.reason@ == "Wayland clipboard listener is not supported on this platform"@,
    {
        ClipboardError {
            status: Status::GenericFailure,
            reason: String::from_str("Wayland clipboard listener is not supported on this platform"),
        }
    }
}

} // verus!
