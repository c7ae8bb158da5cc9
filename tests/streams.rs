use streamscript::directory::StreamDirectory;
use streamscript::entry::{ConfigError, Field, Mode, RawEntry, StreamEntry};
use streamscript::liveness::{
    LivenessProbe, LivenessResult, ProbeRun, Reachability, DEFAULT_TIMEOUT_SECS,
};
use streamscript::playback::{
    DispatchError, LaunchOutcome, PlayDecision, PlaybackDispatcher, WaitPolicy,
};

fn entry(name: &str, url: &str, mode: Mode) -> StreamEntry {
    StreamEntry::new(name.to_string(), url.to_string(), mode).unwrap()
}

fn raw(name: Option<&str>, url: Option<&str>, mode: Option<&str>) -> RawEntry {
    RawEntry {
        name: name.map(|s| s.to_string()),
        url: url.map(|s| s.to_string()),
        mode: mode.map(|s| s.to_string()),
    }
}

fn sample_directory() -> StreamDirectory {
    StreamDirectory::new(
        Some("my streams".to_string()),
        vec![
            entry("radio", "http://x", Mode::AudioOnly),
            entry("cam", "http://y", Mode::AudioVideo),
        ],
    )
    .unwrap()
}

#[test]
fn mode_words_read_back() {
    assert_eq!(Mode::parse("audio"), Some(Mode::AudioOnly));
    assert_eq!(Mode::parse("video"), Some(Mode::AudioVideo));
    assert_eq!(Mode::parse("Audio"), None);
    assert_eq!(Mode::parse(""), None);
    assert_eq!(Mode::AudioOnly.word(), "audio");
    assert_eq!(Mode::AudioVideo.word(), "video");
    for m in [Mode::AudioOnly, Mode::AudioVideo] {
        assert_eq!(Mode::parse(&m.word()), Some(m));
    }
}

#[test]
fn entry_rejects_empty_fields() {
    assert_eq!(
        StreamEntry::new(String::new(), "http://x".to_string(), Mode::AudioOnly).unwrap_err(),
        ConfigError::Empty(Field::Name)
    );
    assert_eq!(
        StreamEntry::new("a".to_string(), String::new(), Mode::AudioOnly).unwrap_err(),
        ConfigError::Empty(Field::Url)
    );
    let e = entry("a", "http://x", Mode::AudioVideo);
    assert_eq!(e.name(), "a");
    assert_eq!(e.url(), "http://x");
    assert_eq!(e.mode(), Mode::AudioVideo);
}

#[test]
fn record_checks_report_first_problem() {
    assert_eq!(
        StreamEntry::from_raw(&raw(None, None, None)).unwrap_err(),
        ConfigError::Missing(Field::Name)
    );
    assert_eq!(
        StreamEntry::from_raw(&raw(Some(""), None, Some("audio"))).unwrap_err(),
        ConfigError::Missing(Field::Url)
    );
    assert_eq!(
        StreamEntry::from_raw(&raw(Some("a"), Some("u"), None)).unwrap_err(),
        ConfigError::Missing(Field::Mode)
    );
    assert_eq!(
        StreamEntry::from_raw(&raw(Some(""), Some(""), Some("audio"))).unwrap_err(),
        ConfigError::Empty(Field::Name)
    );
    assert_eq!(
        StreamEntry::from_raw(&raw(Some("a"), Some(""), Some("tv"))).unwrap_err(),
        ConfigError::Empty(Field::Url)
    );
    assert_eq!(
        StreamEntry::from_raw(&raw(Some("a"), Some("u"), Some("tv"))).unwrap_err(),
        ConfigError::UnknownMode("tv".to_string())
    );
    let e = StreamEntry::from_raw(&raw(Some("a"), Some("u"), Some("video"))).unwrap();
    assert_eq!(e.name(), "a");
    assert_eq!(e.url(), "u");
    assert_eq!(e.mode(), Mode::AudioVideo);
}

#[test]
fn describe_shows_name_mode_and_url() {
    let e = entry("radio", "http://x", Mode::AudioOnly);
    assert_eq!(e.describe(), "radio\nmode: audio\nstream url: 'http://x'");
}

#[test]
fn duplicate_names_fail_construction() {
    let r = StreamDirectory::new(
        None,
        vec![
            entry("a", "http://1", Mode::AudioOnly),
            entry("b", "http://2", Mode::AudioOnly),
            entry("a", "http://3", Mode::AudioVideo),
        ],
    );
    assert_eq!(r.unwrap_err(), ConfigError::DuplicateName("a".to_string()));
}

#[test]
fn first_repeated_name_is_reported() {
    let r = StreamDirectory::new(
        None,
        vec![
            entry("a", "http://1", Mode::AudioOnly),
            entry("b", "http://2", Mode::AudioOnly),
            entry("b", "http://3", Mode::AudioOnly),
            entry("a", "http://4", Mode::AudioOnly),
        ],
    );
    assert_eq!(r.unwrap_err(), ConfigError::DuplicateName("b".to_string()));
}

#[test]
fn names_differing_in_case_are_distinct() {
    let d = StreamDirectory::new(
        None,
        vec![entry("main", "http://1", Mode::AudioOnly), entry("Main", "http://2", Mode::AudioOnly)],
    )
    .unwrap();
    assert_eq!(d.all().len(), 2);
}

#[test]
fn empty_directory_is_allowed() {
    let d = StreamDirectory::new(None, Vec::new()).unwrap();
    assert!(d.all().is_empty());
    assert!(d.find("x").is_none());
    assert!(d.title().is_none());
}

#[test]
fn find_is_case_sensitive() {
    let d = StreamDirectory::new(None, vec![entry("main", "http://m", Mode::AudioOnly)]).unwrap();
    assert!(d.find("Main").is_none());
    let e = d.find("main").unwrap();
    assert_eq!(e.url(), "http://m");
    assert!(d.find("unknown").is_none());
}

#[test]
fn all_keeps_order_and_repeats() {
    let d = StreamDirectory::new(
        None,
        vec![
            entry("c", "http://3", Mode::AudioOnly),
            entry("a", "http://1", Mode::AudioVideo),
            entry("b", "http://2", Mode::AudioOnly),
        ],
    )
    .unwrap();
    let first: Vec<String> = d.all().iter().map(|e| e.name().clone()).collect();
    let second: Vec<String> = d.all().iter().map(|e| e.name().clone()).collect();
    assert_eq!(first, vec!["c", "a", "b"]);
    assert_eq!(first, second);
}

#[test]
fn catalog_records_build_directory() {
    let d = StreamDirectory::from_config(
        Some("t".to_string()),
        Some(vec![
            raw(Some("radio"), Some("http://x"), Some("audio")),
            raw(Some("cam"), Some("http://y"), Some("video")),
        ]),
    )
    .unwrap();
    assert_eq!(d.title().as_deref(), Some("t"));
    let names: Vec<&str> = d.all().iter().map(|e| e.name().as_str()).collect();
    assert_eq!(names, vec!["radio", "cam"]);
    assert_eq!(d.all()[1].mode(), Mode::AudioVideo);
}

#[test]
fn catalog_errors() {
    assert_eq!(
        StreamDirectory::from_config(None, None).unwrap_err(),
        ConfigError::NoStreams
    );
    assert_eq!(
        StreamDirectory::from_config(
            None,
            Some(vec![
                raw(Some("a"), Some("u"), Some("audio")),
                raw(Some("b"), None, Some("sound")),
                raw(Some("c"), Some("u"), Some("sound")),
            ])
        )
        .unwrap_err(),
        ConfigError::Missing(Field::Url)
    );
    assert_eq!(
        StreamDirectory::from_config(
            None,
            Some(vec![
                raw(Some("a"), Some("u"), Some("audio")),
                raw(Some("a"), Some("v"), Some("video")),
            ])
        )
        .unwrap_err(),
        ConfigError::DuplicateName("a".to_string())
    );
}

#[test]
fn online_needs_status_200_and_probe_success() {
    let p = LivenessProbe::new();
    let ok = ProbeRun::Exited { code: Some(0) };
    let bad = ProbeRun::Exited { code: Some(1) };
    assert_eq!(p.check(Reachability::Response(200), ok).result, LivenessResult::Online);
    assert_eq!(p.check(Reachability::Response(200), bad).result, LivenessResult::Offline);
    assert_eq!(p.check(Reachability::Response(404), ok).result, LivenessResult::Offline);
    assert_eq!(p.check(Reachability::Response(404), bad).result, LivenessResult::Offline);
}

#[test]
fn other_success_codes_are_offline() {
    let p = LivenessProbe::new();
    let ok = ProbeRun::Exited { code: Some(0) };
    assert_eq!(p.check(Reachability::Response(204), ok).result, LivenessResult::Offline);
    assert_eq!(p.check(Reachability::Response(301), ok).result, LivenessResult::Offline);
    let signalled = ProbeRun::Exited { code: None };
    assert_eq!(
        p.check(Reachability::Response(200), signalled).result,
        LivenessResult::Offline
    );
}

#[test]
fn failures_are_reported_beside_offline() {
    let p = LivenessProbe::new();
    let r = p.check(Reachability::NetworkError, ProbeRun::Unavailable);
    assert_eq!(r.result, LivenessResult::Offline);
    assert!(r.network_error);
    assert!(r.probe_tool_unavailable);
    let r = p.check(Reachability::Response(200), ProbeRun::Unavailable);
    assert_eq!(r.result, LivenessResult::Offline);
    assert!(!r.network_error);
    assert!(r.probe_tool_unavailable);
    let r = p.check(Reachability::NetworkError, ProbeRun::Exited { code: Some(0) });
    assert_eq!(r.result, LivenessResult::Offline);
    assert!(r.network_error);
    assert!(!r.probe_tool_unavailable);
    let r = p.check(Reachability::Response(200), ProbeRun::Exited { code: Some(0) });
    assert!(!r.network_error);
    assert!(!r.probe_tool_unavailable);
}

#[test]
fn verdict_words() {
    assert_eq!(LivenessResult::Online.word(), "Online");
    assert_eq!(LivenessResult::Offline.word(), "Offline");
}

#[test]
fn probe_requests() {
    let p = LivenessProbe::new();
    assert_eq!(p.timeout_secs, DEFAULT_TIMEOUT_SECS);
    let req = p.reach_request("http://x");
    assert_eq!(req.url, "http://x");
    assert_eq!(req.timeout_secs, DEFAULT_TIMEOUT_SECS);
    let p = LivenessProbe::with_timeout(3);
    assert_eq!(p.reach_request("http://y").timeout_secs, 3);
    let inv = p.probe_invocation("http://y");
    assert_eq!(inv.program, "youtube-dl");
    assert_eq!(inv.args, vec!["-j".to_string(), "http://y".to_string()]);
}

#[test]
fn audio_only_waits_for_player() {
    let e = entry("radio", "http://x", Mode::AudioOnly);
    let plan = PlaybackDispatcher::plan(&e);
    assert_eq!(plan.wait, WaitPolicy::UntilExit);
    assert_eq!(plan.invocation.program, "mpv");
    assert_eq!(plan.invocation.args, vec!["http://x".to_string(), "--no-video".to_string()]);
}

#[test]
fn audio_video_detaches_player() {
    let e = entry("cam", "http://y", Mode::AudioVideo);
    let plan = PlaybackDispatcher::plan(&e);
    assert_eq!(plan.wait, WaitPolicy::Detach);
    assert_eq!(plan.invocation.program, "mpv");
    assert_eq!(plan.invocation.args, vec!["http://y".to_string()]);
}

#[test]
fn only_launch_failure_is_an_error() {
    assert_eq!(
        PlaybackDispatcher::finish(LaunchOutcome::Failed),
        Err(DispatchError::LaunchFailed)
    );
    assert_eq!(PlaybackDispatcher::finish(LaunchOutcome::Exited { code: Some(0) }), Ok(()));
    assert_eq!(PlaybackDispatcher::finish(LaunchOutcome::Exited { code: Some(2) }), Ok(()));
    assert_eq!(PlaybackDispatcher::finish(LaunchOutcome::Exited { code: None }), Ok(()));
    assert_eq!(PlaybackDispatcher::finish(LaunchOutcome::Running), Ok(()));
}

#[test]
fn end_to_end_list_and_play() {
    let d = sample_directory();
    let probe = LivenessProbe::new();
    let lines: Vec<String> = d
        .all()
        .iter()
        .map(|e| {
            let report = probe.check(Reachability::Response(200), ProbeRun::Exited { code: Some(0) });
            format!("{} {}", e.name(), report.result.word())
        })
        .collect();
    assert_eq!(lines, vec!["radio Online".to_string(), "cam Online".to_string()]);

    match PlaybackDispatcher::decide(&d, "cam") {
        PlayDecision::Launch(plan) => {
            assert_eq!(plan.wait, WaitPolicy::Detach);
            assert_eq!(plan.invocation.args, vec!["http://y".to_string()]);
        }
        PlayDecision::NotFound => panic!("cam should be found"),
    }
    match PlaybackDispatcher::decide(&d, "radio") {
        PlayDecision::Launch(plan) => assert_eq!(plan.wait, WaitPolicy::UntilExit),
        PlayDecision::NotFound => panic!("radio should be found"),
    }
    assert!(matches!(PlaybackDispatcher::decide(&d, "missing"), PlayDecision::NotFound));
}
