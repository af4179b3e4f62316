use musicndp::launch::{build_invocation, MusicndpOpt, SpawnError};
use musicndp::line::trim_str;
use musicndp::pump::{Pump, PumpState};
use musicndp::url::{File, UrlBuf};

fn local(path: &str) -> UrlBuf {
    UrlBuf::Local { path: path.to_string() }
}

fn virtual_loc(path: &str) -> UrlBuf {
    UrlBuf::Virtual { path: path.to_string() }
}

#[test]
fn invocation_has_exact_argument_vector() {
    let opt = MusicndpOpt {
        cwd: local("/data"),
        hidden: true,
        subject: "foo.*bar".to_string(),
        args: vec!["--max-depth".to_string(), "3".to_string()],
    };
    let inv = build_invocation("musicndp", &opt).unwrap();
    assert_eq!(inv.program, "musicndp");
    assert_eq!(
        inv.args,
        vec![
            "--base-directory".to_string(),
            "/data".to_string(),
            "--regex".to_string(),
            "--hidden".to_string(),
            "--max-depth".to_string(),
            "3".to_string(),
            "foo.*bar".to_string(),
        ]
    );
    assert!(inv.kill_on_drop);
    assert!(inv.pipe_stdout);
    assert!(inv.discard_stderr);
}

#[test]
fn invocation_excludes_hidden_when_not_requested() {
    let opt = MusicndpOpt {
        cwd: local("/home/user"),
        hidden: false,
        subject: "notes".to_string(),
        args: vec![],
    };
    let inv = build_invocation("musicndp", &opt).unwrap();
    assert_eq!(
        inv.args,
        vec![
            "--base-directory".to_string(),
            "/home/user".to_string(),
            "--regex".to_string(),
            "--no-hidden".to_string(),
            "notes".to_string(),
        ]
    );
}

#[test]
fn virtual_base_directory_is_rejected() {
    let opt = MusicndpOpt {
        cwd: virtual_loc("archive:///tmp/a.zip"),
        hidden: false,
        subject: "x".to_string(),
        args: vec![],
    };
    let err = build_invocation("musicndp", &opt).unwrap_err();
    assert_eq!(err, SpawnError::UnsupportedLocation);
    assert_eq!(err.message(), "musicndp can only search local filesystem");
}

#[test]
fn local_url_yields_its_path() {
    let url = local("/data");
    assert!(url.is_local());
    assert_eq!(url.as_path().unwrap(), "/data");
}

#[test]
fn virtual_url_yields_no_path() {
    let url = virtual_loc("sftp://host/dir");
    assert!(!url.is_local());
    assert!(url.as_path().is_none());
}

#[test]
fn join_inserts_separator_only_when_needed() {
    let a = local("/data").join("a.txt");
    assert_eq!(a.as_path().unwrap(), "/data/a.txt");
    let b = local("/data/").join("a.txt");
    assert_eq!(b.as_path().unwrap(), "/data/a.txt");
    let c = local("").join("a.txt");
    assert_eq!(c.as_path().unwrap(), "a.txt");
}

#[test]
fn join_keeps_the_scheme() {
    let v = virtual_loc("sftp://host/dir").join("a.txt");
    assert!(!v.is_local());
    assert!(v.as_path().is_none());
}

#[test]
fn trim_strips_both_ends() {
    assert_eq!(trim_str("  a b\t"), "a b");
    assert_eq!(trim_str("a.txt\n"), "a.txt");
    assert_eq!(trim_str("plain"), "plain");
    assert_eq!(trim_str(" \t\r\n"), "");
    assert_eq!(trim_str(""), "");
}

#[test]
fn pump_resolves_lines_and_skips_blanks_in_order() {
    // Subprocess emits "a.txt\n", "\n", " b/c.txt \n", then closes.
    let mut pump = Pump::new(local("/data"));
    let mut delivered: Vec<File> = Vec::new();

    let cand = pump.on_line("a.txt").unwrap();
    assert_eq!(cand.as_path().unwrap(), "/data/a.txt");
    if let Some(f) = pump.on_resolution(Some(File::new(cand))) {
        delivered.push(f);
    }

    assert!(pump.on_line("").is_none());

    let cand = pump.on_line(" b/c.txt ").unwrap();
    assert_eq!(cand.as_path().unwrap(), "/data/b/c.txt");
    if let Some(f) = pump.on_resolution(Some(File::new(cand))) {
        delivered.push(f);
    }

    pump.on_stream_end();
    pump.on_exit();
    assert_eq!(pump.state, PumpState::Closed);

    assert_eq!(delivered.len(), 2);
    assert_eq!(delivered[0].url.as_path().unwrap(), "/data/a.txt");
    assert_eq!(delivered[1].url.as_path().unwrap(), "/data/b/c.txt");
}

#[test]
fn whitespace_only_lines_produce_no_candidate() {
    let mut pump = Pump::new(local("/data"));
    assert!(pump.on_line("").is_none());
    assert!(pump.on_line("   ").is_none());
    assert!(pump.on_line("\t \r").is_none());
    assert_eq!(pump.state, PumpState::Streaming);
}

#[test]
fn failed_resolution_drops_the_line_and_continues() {
    // One line names a path that vanishes before resolution completes.
    let mut pump = Pump::new(local("/data"));

    let gone = pump.on_line("gone.txt").unwrap();
    assert_eq!(gone.as_path().unwrap(), "/data/gone.txt");
    assert!(pump.on_resolution(None).is_none());
    assert_eq!(pump.state, PumpState::Streaming);

    let still = pump.on_line("still.txt").unwrap();
    let sent = pump.on_resolution(Some(File::new(still))).unwrap();
    assert_eq!(sent.url.as_path().unwrap(), "/data/still.txt");

    pump.on_stream_end();
    pump.on_exit();
    assert_eq!(pump.state, PumpState::Closed);
}

#[test]
fn sole_failing_line_still_closes_normally() {
    let mut pump = Pump::new(local("/data"));
    let _ = pump.on_line("deleted.txt").unwrap();
    assert!(pump.on_resolution(None).is_none());
    pump.on_stream_end();
    pump.on_exit();
    assert_eq!(pump.state, PumpState::Closed);
}

#[test]
fn empty_stream_closes_after_exit() {
    let mut pump = Pump::new(local("/data"));
    pump.on_stream_end();
    assert_eq!(pump.state, PumpState::Draining);
    pump.on_exit();
    assert_eq!(pump.state, PumpState::Closed);
}
