use download_core::{
    cancel_download, download_outcome, list_formats_outcome, output_dir_for, platform_of, resolve_output_dir,
    DownloadError, ExitReport, HttpStatus, ListReport, LocatePhase, LocateStep, Platform,
    ToolError, ToolLocator,
};

#[test]
fn search_path_hit_ends_the_search() {
    let (mut loc, step) = ToolLocator::start(Platform::Other);
    assert!(matches!(step, LocateStep::Probe { ref program, ref name } if program == "which" && name == "yt-dlp"));
    let step = loc.on_probe(true, "  /usr/bin/yt-dlp\n");
    assert!(matches!(step, LocateStep::Finish(Ok(ref p)) if p == "/usr/bin/yt-dlp"));
    assert!(loc.phase == LocatePhase::Done);
}

#[test]
fn failed_or_empty_probe_goes_local() {
    let (mut loc, _) = ToolLocator::start(Platform::Windows);
    assert!(matches!(loc.on_probe(true, " \n"), LocateStep::FindDataDir));
    let (mut loc, step) = ToolLocator::start(Platform::Windows);
    assert!(matches!(step, LocateStep::Probe { ref program, .. } if program == "where"));
    assert!(matches!(loc.on_probe(false, "C:\\x"), LocateStep::FindDataDir));
}

#[test]
fn full_provisioning_on_linux() {
    let (mut loc, _) = ToolLocator::start(Platform::Other);
    loc.on_probe(false, "");
    let s = loc.on_data_dir(Some("/home/u/.local/share".to_string()));
    assert!(matches!(s, LocateStep::EnsureDir { ref parent, ref name } if parent == "/home/u/.local/share" && name == "ytdlp"));
    let s = loc.on_dir(Ok("/home/u/.local/share/ytdlp".to_string()));
    assert!(matches!(s, LocateStep::CheckLocal { ref name, .. } if name == "yt-dlp"));
    let s = loc.on_local("/d/yt-dlp".to_string(), false);
    assert!(matches!(s, LocateStep::Fetch { ref url } if url == "https://github.com/yt-dlp/yt-dlp/releases/latest/download/yt-dlp"));
    let s = loc.on_response(Ok(HttpStatus { code: 200, text: "200 OK".to_string() }));
    assert!(matches!(s, LocateStep::Save { ref path } if path == "/d/yt-dlp"));
    let s = loc.on_saved(Ok(()));
    assert!(matches!(s, LocateStep::MarkExecutable { ref path } if path == "/d/yt-dlp"));
    let s = loc.on_marked(Ok(ExitReport { success: true, status: "exit status: 0".to_string() }));
    assert!(matches!(s, LocateStep::Finish(Ok(ref p)) if p == "/d/yt-dlp"));
}

#[test]
fn windows_skips_permission_and_uses_exe() {
    let (mut loc, _) = ToolLocator::start(Platform::Windows);
    loc.on_probe(false, "");
    loc.on_data_dir(Some("C:\\data".to_string()));
    let s = loc.on_dir(Ok("C:\\data\\ytdlp".to_string()));
    assert!(matches!(s, LocateStep::CheckLocal { ref name, .. } if name == "yt-dlp.exe"));
    let s = loc.on_local("C:\\data\\ytdlp\\yt-dlp.exe".to_string(), false);
    assert!(matches!(s, LocateStep::Fetch { ref url } if url.ends_with("yt-dlp.exe")));
    loc.on_response(Ok(HttpStatus { code: 204, text: "204".to_string() }));
    assert!(matches!(loc.on_saved(Ok(())), LocateStep::Finish(Ok(_))));
}

#[test]
fn existing_local_copy_is_used() {
    let (mut loc, _) = ToolLocator::start(Platform::MacOs);
    loc.on_probe(false, "");
    loc.on_data_dir(Some("/d".to_string()));
    loc.on_dir(Ok("/d/ytdlp".to_string()));
    assert!(matches!(loc.on_local("/d/ytdlp/yt-dlp".to_string(), true), LocateStep::Finish(Ok(ref p)) if p == "/d/ytdlp/yt-dlp"));
}

#[test]
fn macos_release_asset() {
    let (mut loc, _) = ToolLocator::start(Platform::MacOs);
    loc.on_probe(false, "");
    loc.on_data_dir(Some("/d".to_string()));
    loc.on_dir(Ok("/d/ytdlp".to_string()));
    let s = loc.on_local("/d/ytdlp/yt-dlp".to_string(), false);
    assert!(matches!(s, LocateStep::Fetch { ref url } if url == "https://github.com/yt-dlp/yt-dlp/releases/latest/download/yt-dlp_macos"));
}

fn fail_at(stage: u32) -> LocateStep {
    let (mut loc, _) = ToolLocator::start(Platform::Other);
    loc.on_probe(false, "");
    if stage == 0 {
        return loc.on_data_dir(None);
    }
    loc.on_data_dir(Some("/d".to_string()));
    if stage == 1 {
        return loc.on_dir(Err("denied".to_string()));
    }
    loc.on_dir(Ok("/d/ytdlp".to_string()));
    loc.on_local("/d/ytdlp/yt-dlp".to_string(), false);
    if stage == 2 {
        return loc.on_response(Err("offline".to_string()));
    }
    if stage == 3 {
        return loc.on_response(Ok(HttpStatus { code: 404, text: "404 Not Found".to_string() }));
    }
    loc.on_response(Ok(HttpStatus { code: 200, text: "200 OK".to_string() }));
    if stage == 4 {
        return loc.on_saved(Err(ToolError::WriteFile("disk full".to_string())));
    }
    loc.on_saved(Ok(()));
    if stage == 5 {
        return loc.on_marked(Err("no chmod".to_string()));
    }
    loc.on_marked(Ok(ExitReport { success: false, status: "exit status: 1".to_string() }))
}

fn finish_message(step: LocateStep) -> String {
    match step {
        LocateStep::Finish(Err(e)) => e.message(),
        _ => panic!("expected a failure"),
    }
}

#[test]
fn each_tool_failure_is_reported() {
    assert_eq!(finish_message(fail_at(0)), "Could not find local data directory");
    assert_eq!(finish_message(fail_at(1)), "Failed to create ytdlp directory: denied");
    assert_eq!(finish_message(fail_at(2)), "Failed to download yt-dlp: offline");
    assert_eq!(finish_message(fail_at(3)), "Failed to download yt-dlp: HTTP status 404 Not Found");
    assert_eq!(finish_message(fail_at(4)), "Failed to write file: disk full");
    assert_eq!(finish_message(fail_at(5)), "Failed to make yt-dlp executable: no chmod");
    assert_eq!(finish_message(fail_at(6)), "Failed to make yt-dlp executable: exit status: 1");
    assert_eq!(ToolError::ReadBody("r".to_string()).message(), "Failed to read response bytes: r");
    assert_eq!(ToolError::CreateFile("c".to_string()).message(), "Failed to create file: c");
}

#[test]
fn platform_names() {
    assert!(platform_of("windows") == Platform::Windows);
    assert!(platform_of("macos") == Platform::MacOs);
    assert!(platform_of("linux") == Platform::Other);
}

#[test]
fn output_directory_choice() {
    assert_eq!(resolve_output_dir(Some("/a".to_string()), Some("/b".to_string())).ok(), Some("/a".to_string()));
    assert_eq!(resolve_output_dir(None, Some("/b".to_string())).ok(), Some("/b".to_string()));
    let e = resolve_output_dir(None, None).err().unwrap();
    assert_eq!(e.message(), "Could not find downloads directory");
}

#[test]
fn outcomes_and_messages() {
    let ok = download_outcome(Ok(ExitReport { success: true, status: "exit status: 0".to_string() }));
    assert_eq!(ok.ok(), Some("Download completed successfully!".to_string()));
    let e = download_outcome(Ok(ExitReport { success: false, status: "exit status: 1".to_string() })).err().unwrap();
    assert_eq!(e.message(), "yt-dlp process failed with status: exit status: 1");
    let e = download_outcome(Err("gone".to_string())).err().unwrap();
    assert_eq!(e.message(), "Failed to wait for yt-dlp process: gone");
    let l = list_formats_outcome(Ok(ListReport { success: true, status: String::new(), stdout: "ID EXT\n".to_string() }));
    assert_eq!(l.ok(), Some("ID EXT\n".to_string()));
    let e = list_formats_outcome(Ok(ListReport { success: false, status: "exit status: 2".to_string(), stdout: String::new() })).err().unwrap();
    assert_eq!(e.message(), "yt-dlp exited with status: exit status: 2");
    let e = list_formats_outcome(Err("missing".to_string())).err().unwrap();
    assert_eq!(e.message(), "Failed to execute yt-dlp: missing");
    assert_eq!(DownloadError::SpawnFailure("x".to_string()).message(), "Failed to start yt-dlp: x");
    assert_eq!(DownloadError::OutputCaptureFailure.message(), "Failed to capture stdout");
    assert_eq!(DownloadError::DirectoryFailure("y".to_string()).message(), "Failed to create output directory: y");
    assert_eq!(
        DownloadError::ToolUnavailable(ToolError::NoDataDir).message(),
        "Could not find local data directory"
    );
    assert!(cancel_download().is_ok());
}

#[test]
fn requested_output_dir_is_verbatim() {
    assert_eq!(output_dir_for(Some("rel/dir".to_string())).ok(), Some("rel/dir".to_string()));
    match output_dir_for(None) {
        Ok(d) => assert!(!d.is_empty()),
        Err(e) => assert!(matches!(e, DownloadError::NoDownloadsDir)),
    }
}

#[test]
fn data_dir_step_names_the_tool_directory() {
    let (mut loc, _) = ToolLocator::start(Platform::Other);
    loc.on_probe(false, "");
    match loc.find_data_dir() {
        LocateStep::EnsureDir { name, .. } => assert_eq!(name, "ytdlp"),
        LocateStep::Finish(Err(ToolError::NoDataDir)) => {}
        _ => panic!("unexpected step"),
    }
}
