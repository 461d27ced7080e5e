//! Download orchestration core: tool location, argument construction,
//! progress-line parsing and the shared progress snapshot.
pub mod args;
pub mod locator;
pub mod progress;
pub mod session;
pub mod state;
pub mod text;

pub use args::{build_args, list_formats_args, output_name_pattern, DownloadOptions};
pub use locator::{
    platform_of, HttpStatus, LocatePhase, LocateStep, Platform, ToolError, ToolLocator,
};
pub use progress::{
    eta_field, filename_field, is_progress, percent_token, speed_field, DownloadProgress,
};
pub use session::{
    cancel_download, download_outcome, list_formats_outcome, output_dir_for, resolve_output_dir, DownloadError,
    ExitReport, ListReport,
};
pub use state::DownloadState;
pub use text::{find_text, last_char_before, same_text};
