use liquid_launcher::catalog::{Build, LauncherApi, LoaderSubsystem};
use liquid_launcher::events::{
    output_event, progress_event, CallbackError, OutputStream, ProgressUpdate, ProgressValue,
};
use liquid_launcher::resolver::{artifact_path, ModSource, PathResolutionError};
use liquid_launcher::session::{
    find_build, launch_end, reply_of, resolve_build, LaunchSupervisor, LaunchingParameter, Notice,
    Reply, SessionEnd, SessionState, StartOutcome, TerminateOutcome,
};

fn build(id: u32, branch: &str) -> Build {
    Build {
        build_id: id,
        commit_id: format!("c{}", id),
        branch: branch.to_string(),
        lb_version: "b1".to_string(),
        mc_version: "1.17".to_string(),
        message: "msg".to_string(),
        url: "https://example.net".to_string(),
        fabric_api_version: "0.1".to_string(),
        fabric_loader_version: "0.2".to_string(),
        kotlin_version: "1.5".to_string(),
        kotlin_mod_version: "1.6".to_string(),
    }
}

fn repository(artifact: &str) -> ModSource {
    ModSource::Repository { repository: "main".to_string(), artifact: artifact.to_string() }
}

#[test]
fn skip_source_resolves_to_jar_name() {
    let s = ModSource::SkipAd {
        artifact_name: "sodium".to_string(),
        url: "https://example.net/sodium".to_string(),
        extract: false,
    };
    assert!(matches!(s.get_path(), Ok(p) if p == "sodium.jar"));
}

#[test]
fn repository_source_resolves_to_layout_path() {
    let p = repository("net.example:mod:2.1").get_path();
    assert!(matches!(p, Ok(p) if p == "net/example/mod/2.1/mod-2.1.jar"));
}

#[test]
fn repository_resolution_is_deterministic() {
    let s = repository("g:a:1.0");
    let first = s.get_path();
    let second = s.get_path();
    assert!(matches!(&first, Ok(p) if p == "g/a/1.0/a-1.0.jar"));
    assert!(matches!((first, second), (Ok(a), Ok(b)) if a == b));
}

#[test]
fn malformed_coordinates_are_rejected() {
    for bad in ["g:a", "g:a:1:x", "plain", ""] {
        match repository(bad).get_path() {
            Err(PathResolutionError::MalformedCoordinate { coordinate }) => {
                assert_eq!(coordinate, bad)
            }
            Ok(p) => panic!("{} resolved to {}", bad, p),
        }
    }
}

#[test]
fn artifact_path_keeps_version_dots() {
    assert_eq!(
        artifact_path("org.jetbrains.kotlin:kotlin-stdlib:1.5.21"),
        Some("org/jetbrains/kotlin/kotlin-stdlib/1.5.21/kotlin-stdlib-1.5.21.jar".to_string())
    );
    assert_eq!(artifact_path("g::v"), Some("g//v/-v.jar".to_string()));
    assert_eq!(artifact_path("a:b"), None);
}

#[test]
fn mod_source_decoding_refuses_unknown_tags() {
    let s = ModSource::from_fields(
        "skip",
        Some("n".to_string()),
        Some("u".to_string()),
        true,
        None,
        None,
    );
    assert!(matches!(s, Some(ModSource::SkipAd { artifact_name, url, extract: true })
        if artifact_name == "n" && url == "u"));
    let r = ModSource::from_fields(
        "repository",
        None,
        None,
        false,
        Some("main".to_string()),
        Some("g:a:1".to_string()),
    );
    assert!(matches!(r, Some(ModSource::Repository { repository, artifact })
        if repository == "main" && artifact == "g:a:1"));
    assert!(ModSource::from_fields("maven", None, None, false, Some("m".to_string()), Some("g:a:1".to_string())).is_none());
    assert!(ModSource::from_fields("skip", Some("n".to_string()), None, false, None, None).is_none());
}

#[test]
fn loader_subsystem_tags() {
    assert_eq!(LoaderSubsystem::from_tag("fabric"), Some(LoaderSubsystem::Fabric));
    assert_eq!(LoaderSubsystem::from_tag("forge"), Some(LoaderSubsystem::Forge));
    assert_eq!(LoaderSubsystem::from_tag("Fabric"), None);
    assert_eq!(LoaderSubsystem::from_tag("quilt"), None);
}

#[test]
fn catalog_addresses() {
    assert_eq!(LauncherApi::branches_url(), "https://api.liquidbounce.net/api/v1/version/branches");
    assert_eq!(LauncherApi::all_builds_url(), "https://api.liquidbounce.net/api/v1/version/builds");
    assert_eq!(
        LauncherApi::builds_url("nightly"),
        "https://api.liquidbounce.net/api/v1/version/builds/nightly"
    );
    assert_eq!(LauncherApi::manifest_url(42), "https://api.liquidbounce.net/api/v1/version/launch/42");
    assert_eq!(LauncherApi::manifest_url(0), "https://api.liquidbounce.net/api/v1/version/launch/0");
    assert_eq!(
        LauncherApi::manifest_url(4294967295),
        "https://api.liquidbounce.net/api/v1/version/launch/4294967295"
    );
}

#[test]
fn second_start_is_a_no_op() {
    let mut s = LaunchSupervisor::new();
    assert_eq!(s.start(7), StartOutcome::Started);
    assert_eq!(s.start(7), StartOutcome::AlreadyRunning);
    assert_eq!(s.start(8), StartOutcome::AlreadyRunning);
    let r = s.runner().unwrap();
    assert_eq!(r.build_id, 7);
    assert!(!r.cancellation_sent);
    assert_eq!(s.state(), SessionState::Running);
}

#[test]
fn terminate_on_idle_is_a_no_op() {
    let mut s = LaunchSupervisor::new();
    assert_eq!(s.terminate(), TerminateOutcome::NoSession);
    assert_eq!(s.state(), SessionState::Idle);
    assert!(s.runner().is_none());
}

#[test]
fn cancelled_session_finalizes_once_and_allows_restart() {
    let mut s = LaunchSupervisor::new();
    assert_eq!(s.start(7), StartOutcome::Started);
    assert_eq!(s.terminate(), TerminateOutcome::SendCancellation);
    assert_eq!(s.state(), SessionState::Terminating);
    assert_eq!(s.terminate(), TerminateOutcome::AlreadyTerminating);
    let notices = s.finish(launch_end(Err("interrupted".to_string())));
    assert_eq!(notices.len(), 1);
    assert!(matches!(notices[0], Notice::Finalize));
    assert_eq!(s.state(), SessionState::Idle);
    assert_eq!(s.start(9), StartOutcome::Started);
    assert_eq!(s.runner().unwrap().build_id, 9);
}

#[test]
fn missing_build_reports_not_found() {
    let mut s = LaunchSupervisor::new();
    assert_eq!(s.start(42), StartOutcome::Started);
    let fetched = Ok(vec![build(1, "nightly"), build(7, "stable")]);
    let end = match resolve_build(fetched, 42) {
        Ok(_) => panic!("build 42 is not listed"),
        Err(e) => e,
    };
    assert!(matches!(end, SessionEnd::BuildNotFound));
    let notices = s.finish(end);
    assert_eq!(notices.len(), 2);
    assert!(matches!(&notices[0], Notice::Error(m) if m.contains("unable to find build")));
    assert!(matches!(notices[1], Notice::Finalize));
    assert_eq!(s.state(), SessionState::Idle);
}

#[test]
fn fetch_failure_is_reported_once() {
    let mut s = LaunchSupervisor::new();
    s.start(3);
    let end = match resolve_build(Err("status 503".to_string()), 3) {
        Ok(_) => panic!("fetch failed"),
        Err(e) => e,
    };
    let notices = s.finish(end);
    assert_eq!(notices.len(), 2);
    assert!(matches!(&notices[0], Notice::Error(m) if m == "status 503"));
    assert!(matches!(notices[1], Notice::Finalize));
}

#[test]
fn launch_failure_without_cancellation_is_reported() {
    let mut s = LaunchSupervisor::new();
    s.start(3);
    let notices = s.finish(launch_end(Err("no java".to_string())));
    assert!(matches!(&notices[0], Notice::Error(m) if m == "no java"));
    assert!(matches!(notices[1], Notice::Finalize));
    let mut t = LaunchSupervisor::new();
    t.start(3);
    let ok = t.finish(launch_end(Ok(())));
    assert_eq!(ok.len(), 1);
    assert!(matches!(ok[0], Notice::Finalize));
}

#[test]
fn first_matching_build_is_chosen() {
    let builds = vec![build(1, "a"), build(5, "b"), build(5, "c")];
    assert_eq!(find_build(&builds, 5), Some(1));
    assert_eq!(find_build(&builds, 2), None);
    match resolve_build(Ok(builds), 5) {
        Ok(b) => assert_eq!(b.branch, "b"),
        Err(_) => panic!("build 5 is listed"),
    }
}

#[test]
fn launching_parameter_fallbacks() {
    let p = LaunchingParameter::from_account(None, None, None, None);
    assert_eq!(p.auth_player_name, "unexpected");
    assert_eq!(p.auth_uuid, "069a79f4-44e9-4726-a5be-fca90e38aaf5");
    assert_eq!(p.auth_access_token, "-");
    assert_eq!(p.auth_xuid, "x");
    assert_eq!(p.clientid, "x");
    assert_eq!(p.user_type, "legacy");
    let q = LaunchingParameter::from_account(
        Some("Steve".to_string()),
        Some("id".to_string()),
        Some("tok".to_string()),
        Some("mojang".to_string()),
    );
    assert_eq!(q.auth_player_name, "Steve");
    assert_eq!(q.auth_uuid, "id");
    assert_eq!(q.auth_access_token, "tok");
    assert_eq!(q.user_type, "mojang");
}

#[test]
fn branches_reach_the_response_callback_in_order() {
    let r = reply_of(Ok(vec!["nightly".to_string(), "stable".to_string()]));
    assert!(matches!(r, Reply::Response(v) if v == vec!["nightly".to_string(), "stable".to_string()]));
}

#[test]
fn login_error_reaches_only_the_error_callback() {
    let r: Reply<String> = reply_of(Err("Invalid credentials".to_string()));
    assert!(matches!(r, Reply::Error(m) if m == "Invalid credentials"));
}

#[test]
fn progress_events() {
    let e = progress_event(ProgressUpdate::SetMax(10));
    assert_eq!(e.kind, "max");
    assert!(matches!(e.value, ProgressValue::Count(10)));
    let p = progress_event(ProgressUpdate::SetProgress(3));
    assert_eq!(p.kind, "progress");
    assert!(matches!(p.value, ProgressValue::Count(3)));
    let big = progress_event(ProgressUpdate::SetProgress(5_000_000_000));
    assert!(matches!(big.value, ProgressValue::Count(i32::MAX)));
    let l = progress_event(ProgressUpdate::SetLabel("Downloading".to_string()));
    assert_eq!(l.kind, "label");
    assert!(matches!(l.value, ProgressValue::Text(t) if t == "Downloading"));
}

#[test]
fn output_events() {
    let o = output_event(OutputStream::Stdout, "héllo\n".as_bytes());
    assert!(matches!(o, Ok(e) if e.stream == "stdout" && e.text == "héllo\n"));
    let e = output_event(OutputStream::Stderr, b"err");
    assert!(matches!(e, Ok(e) if e.stream == "stderr" && e.text == "err"));
    let bad = output_event(OutputStream::Stdout, &[0xff, 0xfe]);
    assert!(matches!(bad, Err(CallbackError::InvalidUtf8)));
}
