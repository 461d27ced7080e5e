use vstd::prelude::*;

use crate::locator::{tool_error_message, ToolError};
use crate::text::join_text;

verus! {

/// Why a request failed.
pub enum DownloadError {
    /// The tool could not be located or provisioned.
    ToolUnavailable(ToolError),
    /// No output directory was given and the platform names no downloads directory.
    NoDownloadsDir,
    /// The output directory is missing and could not be created.
    DirectoryFailure(String),
    /// The download process could not be started.
    SpawnFailure(String),
    /// The process's standard output could not be captured.
    OutputCaptureFailure,
    /// The download process ended with a failure status (as the platform prints it).
    ProcessFailure(String),
    /// Waiting for the download process failed.
    WaitFailure(String),
    /// The format listing could not be started.
    ListSpawnFailure(String),
    /// The format listing ended with a failure status.
    FormatListFailure(String),
}

/// The text that reports a [`DownloadError`].
pub open spec fn error_message(e: DownloadError) -> Seq<char> {
    match e {
        DownloadError::ToolUnavailable(t) => tool_error_message(t),
        DownloadError::NoDownloadsDir => "Could not find downloads directory"@,
        DownloadError::DirectoryFailure(d) => "Failed to create output directory: "@ + d@,
        DownloadError::SpawnFailure(d) => "Failed to start yt-dlp: "@ + d@,
        DownloadError::OutputCaptureFailure => "Failed to capture stdout"@,
        DownloadError::ProcessFailure(d) => "yt-dlp process failed with status: "@ + d@,
        DownloadError::WaitFailure(d) => "Failed to wait for yt-dlp process: "@ + d@,
        DownloadError::ListSpawnFailure(d) => "Failed to execute yt-dlp: "@ + d@,
        DownloadError::FormatListFailure(d) => "yt-dlp exited with status: "@ + d@,
    }
}

impl DownloadError {
    /// The text that reports this error.
    pub fn message(&self) -> (r: String)
        ensures
            r@ == error_message(*self),
    {
        match self {
            DownloadError::ToolUnavailable(t) => t.message(),
            DownloadError::NoDownloadsDir => "Could not find downloads directory".to_owned(),
            DownloadError::DirectoryFailure(d) => join_text("Failed to create output directory: ", d.as_str()),
            DownloadError::SpawnFailure(d) => join_text("Failed to start yt-dlp: ", d.as_str()),
            DownloadError::OutputCaptureFailure => "Failed to capture stdout".to_owned(),
            DownloadError::ProcessFailure(d) => join_text("yt-dlp process failed with status: ", d.as_str()),
            DownloadError::WaitFailure(d) => join_text("Failed to wait for yt-dlp process: ", d.as_str()),
            DownloadError::ListSpawnFailure(d) => join_text("Failed to execute yt-dlp: ", d.as_str()),
            DownloadError::FormatListFailure(d) => join_text("yt-dlp exited with status: ", d.as_str()),
        }
    }
}

/// How a finished process ended.
pub struct ExitReport {
    pub success: bool,
    /// The exit status as the platform prints it.
    pub status: String,
}

/// What a finished format listing gave.
pub struct ListReport {
    pub success: bool,
    pub status: String,
    /// Its standard output, as text.
    pub stdout: String,
}

pub open spec fn completion_message() -> Seq<char> {
    "Download completed successfully!"@
}

/// The directory a download goes to: the one asked for, else the platform's
/// downloads directory.
pub fn resolve_output_dir(requested: Option<String>, downloads: Option<String>) -> (r: Result<
    String,
    DownloadError,
>)
    ensures
        match requested {
            Some(d) => r == Ok::<String, DownloadError>(d),
            None => match downloads {
                Some(d) => r == Ok::<String, DownloadError>(d),
                None => r is Err && r->Err_0 is NoDownloadsDir,
            },
        },
{
    match requested {
        Some(d) => Ok(d),
        None => match downloads {
            Some(d) => Ok(d),
            None => Err(DownloadError::NoDownloadsDir),
        },
    }
}

/// Relies on `dirs::download_dir`: the platform's downloads directory, where
/// the platform and the environment name one. Nothing more is known of it.
#[verifier::external_body]
fn platform_download_dir() -> (r: Option<String>) {
    dirs::download_dir().map(|d| d.to_string_lossy().to_string())
}

/// The directory a download goes to: the one asked for, used verbatim;
/// otherwise the platform's downloads directory, looked up only then.
pub fn output_dir_for(requested: Option<String>) -> (r: Result<String, DownloadError>)
    ensures
        match requested {
            Some(d) => r == Ok::<String, DownloadError>(d),
            None => r is Ok || r->Err_0 is NoDownloadsDir,
        },
{
    match requested {
        Some(d) => Ok(d),
        None => resolve_output_dir(None, platform_download_dir()),
    }
}

/// The result of a download once its process was waited for.
pub fn download_outcome(waited: Result<ExitReport, String>) -> (r: Result<String, DownloadError>)
    ensures
        match waited {
            Ok(x) => if x.success {
                r is Ok && r->Ok_0@ == completion_message()
            } else {
                r == Err::<String, DownloadError>(DownloadError::ProcessFailure(x.status))
            },
            Err(e) => r == Err::<String, DownloadError>(DownloadError::WaitFailure(e)),
        },
{
    match waited {
        Ok(x) => if x.success {
            Ok("Download completed successfully!".to_owned())
        } else {
            Err(DownloadError::ProcessFailure(x.status))
        },
        Err(e) => Err(DownloadError::WaitFailure(e)),
    }
}

/// The result of a format listing: the tool's output verbatim on success.
pub fn list_formats_outcome(run: Result<ListReport, String>) -> (r: Result<String, DownloadError>)
    ensures
        match run {
            Ok(x) => if x.success {
                r == Ok::<String, DownloadError>(x.stdout)
            } else {
                r == Err::<String, DownloadError>(DownloadError::FormatListFailure(x.status))
            },
            Err(e) => r == Err::<String, DownloadError>(DownloadError::ListSpawnFailure(e)),
        },
{
    match run {
        Ok(x) => if x.success {
            Ok(x.stdout)
        } else {
            Err(DownloadError::FormatListFailure(x.status))
        },
        Err(e) => Err(DownloadError::ListSpawnFailure(e)),
    }
}

/// Cancelling a download is not supported: the request is accepted and
/// nothing is stopped.
pub fn cancel_download() -> (r: Result<(), String>)
    ensures
        r is Ok,
{
    Ok(())
}

} // verus!
