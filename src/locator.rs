use vstd::prelude::*;

use crate::session::ExitReport;
use crate::text::{join_text, same_text, trim_text, trimmed};

verus! {

/// The platform the tool runs on, as far as locating it is concerned.
#[derive(Clone, Copy, PartialEq, Eq, Structural)]
pub enum Platform {
    Windows,
    MacOs,
    Other,
}

/// Why the download tool could not be located or installed.
pub enum ToolError {
    /// No per-user local data directory is known.
    NoDataDir,
    /// The tool's directory could not be created.
    CreateDir(String),
    /// The release asset could not be requested.
    Network(String),
    /// The release server answered with a status outside 200..=299.
    HttpStatus(String),
    /// The body of the answer could not be read.
    ReadBody(String),
    /// The local file could not be created.
    CreateFile(String),
    /// The local file could not be written.
    WriteFile(String),
    /// The local file could not be marked executable.
    MakeExecutable(String),
}

/// The text that reports a [`ToolError`].
pub open spec fn tool_error_message(e: ToolError) -> Seq<char> {
    match e {
        ToolError::NoDataDir => "Could not find local data directory"@,
        ToolError::CreateDir(d) => "Failed to create ytdlp directory: "@ + d@,
        ToolError::Network(d) => "Failed to download yt-dlp: "@ + d@,
        ToolError::HttpStatus(d) => "Failed to download yt-dlp: HTTP status "@ + d@,
        ToolError::ReadBody(d) => "Failed to read response bytes: "@ + d@,
        ToolError::CreateFile(d) => "Failed to create file: "@ + d@,
        ToolError::WriteFile(d) => "Failed to write file: "@ + d@,
        ToolError::MakeExecutable(d) => "Failed to make yt-dlp executable: "@ + d@,
    }
}

impl ToolError {
    /// The text that reports this error.
    pub fn message(&self) -> (r: String)
        ensures
            r@ == tool_error_message(*self),
    {
        match self {
            ToolError::NoDataDir => "Could not find local data directory".to_owned(),
            ToolError::CreateDir(d) => join_text("Failed to create ytdlp directory: ", d.as_str()),
            ToolError::Network(d) => join_text("Failed to download yt-dlp: ", d.as_str()),
            ToolError::HttpStatus(d) => join_text("Failed to download yt-dlp: HTTP status ", d.as_str()),
            ToolError::ReadBody(d) => join_text("Failed to read response bytes: ", d.as_str()),
            ToolError::CreateFile(d) => join_text("Failed to create file: ", d.as_str()),
            ToolError::WriteFile(d) => join_text("Failed to write file: ", d.as_str()),
            ToolError::MakeExecutable(d) => join_text("Failed to make yt-dlp executable: ", d.as_str()),
        }
    }
}

/// An answer of the release server.
pub struct HttpStatus {
    pub code: u16,
    /// The status as the HTTP client prints it.
    pub text: String,
}

/// Where the search for the tool stands.
#[derive(Clone, Copy, PartialEq, Eq, Structural)]
pub enum LocatePhase {
    Probing,
    FindingDataDir,
    EnsuringDir,
    CheckingLocal,
    Fetching,
    Saving,
    Marking,
    Done,
}

/// What the driver of a [`ToolLocator`] is to do next.
pub enum LocateStep {
    /// Run `program name`; report whether it succeeded and what it printed.
    Probe { program: String, name: String },
    /// Look up the per-user local data directory.
    FindDataDir,
    /// Make sure directory `name` exists under `parent` (recursively); report its path.
    EnsureDir { parent: String, name: String },
    /// Report the path of `name` under `dir`, and whether a file is there.
    CheckLocal { dir: String, name: String },
    /// Request `url` over HTTPS; report the status.
    Fetch { url: String },
    /// Write the body of the answer to `path`.
    Save { path: String },
    /// Give `path` the executable permission.
    MarkExecutable { path: String },
    /// The search is over: the tool's path, or why there is none.
    Finish(Result<String, ToolError>),
}

/// Mathematical view of a [`LocateStep`].
pub enum StepView {
    Probe { program: Seq<char>, name: Seq<char> },
    FindDataDir,
    EnsureDir { parent: Seq<char>, name: Seq<char> },
    CheckLocal { dir: Seq<char>, name: Seq<char> },
    Fetch { url: Seq<char> },
    Save { path: Seq<char> },
    MarkExecutable { path: Seq<char> },
    Finish(Result<Seq<char>, ToolError>),
}

impl View for LocateStep {
    type V = StepView;

    open spec fn view(&self) -> StepView {
        match self {
            LocateStep::Probe { program, name } => StepView::Probe { program: program@, name: name@ },
            LocateStep::FindDataDir => StepView::FindDataDir,
            LocateStep::EnsureDir { parent, name } => StepView::EnsureDir {
                parent: parent@,
                name: name@,
            },
            LocateStep::CheckLocal { dir, name } => StepView::CheckLocal { dir: dir@, name: name@ },
            LocateStep::Fetch { url } => StepView::Fetch { url: url@ },
            LocateStep::Save { path } => StepView::Save { path: path@ },
            LocateStep::MarkExecutable { path } => StepView::MarkExecutable { path: path@ },
            LocateStep::Finish(Ok(p)) => StepView::Finish(Ok(p@)),
            LocateStep::Finish(Err(e)) => StepView::Finish(Err(*e)),
        }
    }
}

pub open spec fn platform_named(os: Seq<char>) -> Platform {
    if os == "windows"@ {
        Platform::Windows
    } else if os == "macos"@ {
        Platform::MacOs
    } else {
        Platform::Other
    }
}

/// The program that searches the executable search path.
pub open spec fn probe_program(p: Platform) -> Seq<char> {
    if p == Platform::Windows {
        "where"@
    } else {
        "which"@
    }
}

pub open spec fn tool_name() -> Seq<char> {
    "yt-dlp"@
}

/// The directory, under the local data directory, that holds a provisioned tool.
pub open spec fn tool_dir_name() -> Seq<char> {
    "ytdlp"@
}

pub open spec fn executable_name(p: Platform) -> Seq<char> {
    if p == Platform::Windows {
        "yt-dlp.exe"@
    } else {
        "yt-dlp"@
    }
}

/// The release asset to fetch on each platform.
pub open spec fn release_url(p: Platform) -> Seq<char> {
    match p {
        Platform::Windows => "https://github.com/yt-dlp/yt-dlp/releases/latest/download/yt-dlp.exe"@,
        Platform::MacOs => "https://github.com/yt-dlp/yt-dlp/releases/latest/download/yt-dlp_macos"@,
        Platform::Other => "https://github.com/yt-dlp/yt-dlp/releases/latest/download/yt-dlp"@,
    }
}

/// Phase and step after the search-path probe.
pub open spec fn after_probe(success: bool, stdout: Seq<char>) -> (LocatePhase, StepView) {
    if success && trimmed(stdout).len() > 0 {
        (LocatePhase::Done, StepView::Finish(Ok(trimmed(stdout))))
    } else {
        (LocatePhase::FindingDataDir, StepView::FindDataDir)
    }
}

/// The platform an operating system name denotes: `windows`, `macos`, or another.
pub fn platform_of(os: &str) -> (r: Platform)
    ensures
        r == platform_named(os@),
{
    if same_text(os, "windows") {
        Platform::Windows
    } else if same_text(os, "macos") {
        Platform::MacOs
    } else {
        Platform::Other
    }
}

/// Relies on `dirs::data_local_dir`: the per-user local data directory, where
/// the platform and the environment name one. Nothing more is known of it.
#[verifier::external_body]
fn local_data_dir() -> (r: Option<String>) {
    dirs::data_local_dir().map(|d| d.to_string_lossy().to_string())
}

/// Finds the download tool on the search path, or provisions a local copy.
pub struct ToolLocator {
    pub phase: LocatePhase,
    pub platform: Platform,
    /// The local executable path, once known.
    pub path: String,
}

impl ToolLocator {
    /// Begins a search: the first step probes the executable search path.
    pub fn start(platform: Platform) -> (r: (ToolLocator, LocateStep))
        ensures
            r.0.phase == LocatePhase::Probing,
            r.0.platform == platform,
            r.1@ == (StepView::Probe { program: probe_program(platform), name: tool_name() }),
    {
        let program = if platform == Platform::Windows {
            "where".to_owned()
        } else {
            "which".to_owned()
        };
        (
            ToolLocator { phase: LocatePhase::Probing, platform, path: String::new() },
            LocateStep::Probe { program, name: "yt-dlp".to_owned() },
        )
    }

    /// Takes in the probe: a successful one that printed a path ends the search there.
    pub fn on_probe(&mut self, success: bool, stdout: &str) -> (r: LocateStep)
        requires
            old(self).phase == LocatePhase::Probing,
        ensures
            (final(self).phase, r@) == after_probe(success, stdout@),
            final(self).platform == old(self).platform,
    {
        if success {
            let found = trim_text(stdout);
            if found.unicode_len() > 0 {
                self.phase = LocatePhase::Done;
                return LocateStep::Finish(Ok(found));
            }
        }
        self.phase = LocatePhase::FindingDataDir;
        LocateStep::FindDataDir
    }

    /// Takes in the local data directory, if there is one.
    pub fn on_data_dir(&mut self, dir: Option<String>) -> (r: LocateStep)
        requires
            old(self).phase == LocatePhase::FindingDataDir,
        ensures
            final(self).platform == old(self).platform,
            match dir {
                Some(d) => final(self).phase == LocatePhase::EnsuringDir && r@ == (StepView::EnsureDir {
                    parent: d@,
                    name: tool_dir_name(),
                }),
                None => final(self).phase == LocatePhase::Done && r@ == StepView::Finish(
                    Err(ToolError::NoDataDir),
                ),
            },
    {
        match dir {
            Some(d) => {
                self.phase = LocatePhase::EnsuringDir;
                LocateStep::EnsureDir { parent: d, name: "ytdlp".to_owned() }
            },
            None => {
                self.phase = LocatePhase::Done;
                LocateStep::Finish(Err(ToolError::NoDataDir))
            },
        }
    }

    /// Answers the data directory step by asking the platform.
    pub fn find_data_dir(&mut self) -> (r: LocateStep)
        requires
            old(self).phase == LocatePhase::FindingDataDir,
        ensures
            final(self).platform == old(self).platform,
            final(self).phase == LocatePhase::Done || final(self).phase == LocatePhase::EnsuringDir,
            final(self).phase == LocatePhase::Done ==> r@ == StepView::Finish(
                Err(ToolError::NoDataDir),
            ),
            final(self).phase == LocatePhase::EnsuringDir ==> (r@ matches StepView::EnsureDir {
                name,
                ..
            } && name == tool_dir_name()),
    {
        let dir = local_data_dir();
        self.on_data_dir(dir)
    }

    /// Takes in the tool's directory, or why it could not be created.
    pub fn on_dir(&mut self, dir: Result<String, String>) -> (r: LocateStep)
        requires
            old(self).phase == LocatePhase::EnsuringDir,
        ensures
            final(self).platform == old(self).platform,
            match dir {
                Ok(d) => final(self).phase == LocatePhase::CheckingLocal && r@ == (StepView::CheckLocal {
                    dir: d@,
                    name: executable_name(old(self).platform),
                }),
                Err(e) => final(self).phase == LocatePhase::Done && r@ == StepView::Finish(
                    Err(ToolError::CreateDir(e)),
                ),
            },
    {
        match dir {
            Ok(d) => {
                self.phase = LocatePhase::CheckingLocal;
                let name = if self.platform == Platform::Windows {
                    "yt-dlp.exe".to_owned()
                } else {
                    "yt-dlp".to_owned()
                };
                LocateStep::CheckLocal { dir: d, name }
            },
            Err(e) => {
                self.phase = LocatePhase::Done;
                LocateStep::Finish(Err(ToolError::CreateDir(e)))
            },
        }
    }

    /// Takes in the local executable path and whether a file is there; a
    /// missing one is fetched.
    pub fn on_local(&mut self, path: String, exists: bool) -> (r: LocateStep)
        requires
            old(self).phase == LocatePhase::CheckingLocal,
        ensures
            final(self).platform == old(self).platform,
            final(self).path == path,
            exists ==> final(self).phase == LocatePhase::Done && r@ == StepView::Finish(
                Ok(path@),
            ),
            !exists ==> final(self).phase == LocatePhase::Fetching && r@ == (StepView::Fetch {
                url: release_url(old(self).platform),
            }),
    {
        if exists {
            self.phase = LocatePhase::Done;
            let r = LocateStep::Finish(Ok(path.clone()));
            self.path = path;
            r
        } else {
            self.phase = LocatePhase::Fetching;
            self.path = path;
            let url = match self.platform {
                Platform::Windows => "https://github.com/yt-dlp/yt-dlp/releases/latest/download/yt-dlp.exe".to_owned(),
                Platform::MacOs => "https://github.com/yt-dlp/yt-dlp/releases/latest/download/yt-dlp_macos".to_owned(),
                Platform::Other => "https://github.com/yt-dlp/yt-dlp/releases/latest/download/yt-dlp".to_owned(),
            };
            LocateStep::Fetch { url }
        }
    }

    /// Takes in the server's answer: only a status in 200..=299 is saved.
    pub fn on_response(&mut self, response: Result<HttpStatus, String>) -> (r: LocateStep)
        requires
            old(self).phase == LocatePhase::Fetching,
        ensures
            final(self).platform == old(self).platform,
            final(self).path == old(self).path,
            match response {
                Ok(s) => if 200 <= s.code <= 299 {
                    final(self).phase == LocatePhase::Saving && r@ == (StepView::Save {
                        path: old(self).path@,
                    })
                } else {
                    final(self).phase == LocatePhase::Done && r@ == StepView::Finish(
                        Err(ToolError::HttpStatus(s.text)),
                    )
                },
                Err(e) => final(self).phase == LocatePhase::Done && r@ == StepView::Finish(
                    Err(ToolError::Network(e)),
                ),
            },
    {
        match response {
            Ok(s) => {
                if 200 <= s.code && s.code <= 299 {
                    self.phase = LocatePhase::Saving;
                    LocateStep::Save { path: self.path.clone() }
                } else {
                    self.phase = LocatePhase::Done;
                    LocateStep::Finish(Err(ToolError::HttpStatus(s.text)))
                }
            },
            Err(e) => {
                self.phase = LocatePhase::Done;
                LocateStep::Finish(Err(ToolError::Network(e)))
            },
        }
    }

    /// Takes in the outcome of saving; outside Windows the file is then
    /// marked executable.
    pub fn on_saved(&mut self, saved: Result<(), ToolError>) -> (r: LocateStep)
        requires
            old(self).phase == LocatePhase::Saving,
        ensures
            final(self).platform == old(self).platform,
            final(self).path == old(self).path,
            match saved {
                Ok(()) => if old(self).platform == Platform::Windows {
                    final(self).phase == LocatePhase::Done && r@ == StepView::Finish(
                        Ok(old(self).path@),
                    )
                } else {
                    final(self).phase == LocatePhase::Marking && r@ == (StepView::MarkExecutable {
                        path: old(self).path@,
                    })
                },
                Err(e) => final(self).phase == LocatePhase::Done && r@ == StepView::Finish(Err(e)),
            },
    {
        match saved {
            Ok(()) => {
                if self.platform == Platform::Windows {
                    self.phase = LocatePhase::Done;
                    LocateStep::Finish(Ok(self.path.clone()))
                } else {
                    self.phase = LocatePhase::Marking;
                    LocateStep::MarkExecutable { path: self.path.clone() }
                }
            },
            Err(e) => {
                self.phase = LocatePhase::Done;
                LocateStep::Finish(Err(e))
            },
        }
    }

    /// Takes in the outcome of marking the file executable.
    /// A permission command that could not run, or that ended with a failure
    /// status, fails the search.
    pub fn on_marked(&mut self, marked: Result<ExitReport, String>) -> (r: LocateStep)
        requires
            old(self).phase == LocatePhase::Marking,
        ensures
            final(self).platform == old(self).platform,
            final(self).path == old(self).path,
            final(self).phase == LocatePhase::Done,
            match marked {
                Ok(x) => if x.success {
                    r@ == StepView::Finish(Ok(old(self).path@))
                } else {
                    r@ == StepView::Finish(Err(ToolError::MakeExecutable(x.status)))
                },
                Err(e) => r@ == StepView::Finish(Err(ToolError::MakeExecutable(e))),
            },
    {
        self.phase = LocatePhase::Done;
        match marked {
            Ok(x) => if x.success {
                LocateStep::Finish(Ok(self.path.clone()))
            } else {
                LocateStep::Finish(Err(ToolError::MakeExecutable(x.status)))
            },
            Err(e) => LocateStep::Finish(Err(ToolError::MakeExecutable(e))),
        }
    }
}

/// A path found on the executable search path ends the search at once:
/// nothing is created and nothing is fetched.
pub proof fn lemma_search_path_hit_ends_search(stdout: Seq<char>)
    requires
        trimmed(stdout).len() > 0,
    ensures
        after_probe(true, stdout) == (LocatePhase::Done, StepView::Finish(Ok(trimmed(stdout)))),
{
}

} // verus!
