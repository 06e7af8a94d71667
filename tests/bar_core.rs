use std::cell::RefCell;
use std::time::Duration;

use smolbar::bar::{blocks_frame, header_trailer, Bar, BarAction, BarMsg, BarPhase};
use smolbar::block::{
    interval_plan, merge_output, Block, CommandOutcome, IntervalPlan, IntervalProblem, RegenBody,
    RegenWarning, WorkerAction, WorkerEvent, WorkerState,
};
use smolbar::config::{
    config_source, Config, ConfigError, ConfigSource, IntervalSetting, TomlBar, TomlBlock,
};
use smolbar::protocol::{Align, Body, Header, Markup, Signal};

fn toml_block(command: Option<&str>, prefix: Option<&str>, full_text: Option<&str>) -> TomlBlock {
    let mut body = Body::new();
    body.full_text = full_text.map(|s| s.to_string());
    TomlBlock {
        command: command.map(|s| s.to_string()),
        prefix: prefix.map(|s| s.to_string()),
        postfix: None,
        interval: None,
        signal: None,
        body,
    }
}

fn config_of(blocks: Vec<TomlBlock>) -> Config {
    Config {
        path: "/etc/bar/config.toml".to_string(),
        command_dir: "/etc/bar".to_string(),
        toml: TomlBar {
            command_dir: None,
            smolbar_version: semver::VersionReq::STAR,
            header: Header::default(),
            body: Body::new(),
            blocks,
        },
    }
}

fn interval_from_secs(secs: f32) -> IntervalSetting {
    match Duration::try_from_secs_f32(secs) {
        Ok(d) => IntervalSetting::Duration { secs: d.as_secs(), nanos: d.subsec_nanos() },
        Err(_) => IntervalSetting::Unrepresentable,
    }
}

#[test]
fn prefix_applies_without_command() {
    let mut block = Block::new(toml_block(None, Some("CPU: "), Some("idle")), Body::new(), 0, 1);
    let msg = RegenBody { init: true };
    assert_eq!(block.listen(WorkerEvent::Request(msg)), WorkerAction::Regenerate(msg));
    assert!(!block.publishes_before_command(msg));
    let report = block.complete_regeneration(CommandOutcome::NotConfigured);
    assert!(report.refresh);
    assert!(report.warnings.is_empty());
    assert_eq!(block.body().full_text.as_deref(), Some("CPU: idle"));
}

#[test]
fn snapshot_keeps_configured_order_and_warns_only_for_failure() {
    let store: RefCell<Vec<Block>> = RefCell::new(Vec::new());
    let config = config_of(vec![
        toml_block(Some("false"), None, Some("A default")),
        toml_block(Some("echo ok"), None, Some("B default")),
    ]);
    let mut bar: Bar<usize> = Bar::new(config, |b: Block| {
        let id = b.id();
        store.borrow_mut().push(b);
        id
    });
    assert_eq!(bar.len(), 2);
    let mut blocks = store.into_inner();
    // B finishes first: arrival order must not matter.
    let report_b = blocks[1].complete_regeneration(CommandOutcome::Exited {
        success: true,
        stdout: b"ok\n".to_vec(),
    });
    let report_a = blocks[0].complete_regeneration(CommandOutcome::Exited {
        success: false,
        stdout: Vec::new(),
    });
    assert_eq!(report_a.warnings, vec![RegenWarning::ExitFailure]);
    assert!(report_b.warnings.is_empty());
    let snapshot: Vec<Body> = (0..bar.len())
        .map(|i| blocks[*bar.blocks().handle(i)].body().clone())
        .collect();
    assert_eq!(snapshot[0].full_text.as_deref(), Some("A default"));
    assert_eq!(snapshot[1].full_text.as_deref(), Some("ok"));
    assert!(bar.refresh_blocks(&snapshot));
    assert!(!bar.refresh_blocks(&snapshot));
}

#[test]
fn reload_cancels_and_drops_removed_block() {
    let config = config_of(vec![
        toml_block(Some("date"), None, None),
        toml_block(Some("sleep 100"), None, Some("C")),
    ]);
    let mut bar: Bar<Block> = Bar::new(config, |b: Block| b);
    assert_eq!(bar.listen(BarMsg::Reload), BarAction::Reload);
    let mut old = bar.begin_replace();
    assert_eq!(bar.phase(), BarPhase::Replacing);
    assert_eq!(bar.len(), 0);
    assert_eq!(old.len(), 2);
    // C is mid-command when the reload cancels it.
    let c = &mut old[1];
    let before = c.body().clone();
    assert_eq!(
        c.listen(WorkerEvent::Request(RegenBody { init: false })),
        WorkerAction::Regenerate(RegenBody { init: false })
    );
    assert_eq!(c.listen(WorkerEvent::Cancel), WorkerAction::StopTriggers);
    let report = c.complete_regeneration(CommandOutcome::Exited {
        success: true,
        stdout: b"late\n".to_vec(),
    });
    assert!(!report.refresh);
    assert_eq!(c.body(), &before);
    bar.reload(config_of(vec![toml_block(Some("date"), None, None)]), |b: Block| b);
    assert_eq!(bar.phase(), BarPhase::Listening);
    assert_eq!(bar.len(), 1);
    assert_eq!(bar.blocks().handle(0).toml().command.as_deref(), Some("date"));
}

#[test]
fn shutdown_during_interval_sleep_stops_quietly() {
    let mut toml = toml_block(Some("date"), None, None);
    toml.interval = Some(interval_from_secs(5.0));
    let mut bar: Bar<Block> = Bar::new(config_of(vec![toml]), |b: Block| b);
    assert!(bar.accepts_signals());
    assert_eq!(bar.listen(BarMsg::ShutDown), BarAction::ShutDown);
    assert!(!bar.accepts_signals());
    assert_eq!(bar.listen(BarMsg::RefreshBlocks), BarAction::Ignore);
    let mut handles = bar.begin_shutdown();
    let d = &mut handles[0];
    assert_eq!(d.state(), WorkerState::Idle);
    assert_eq!(d.listen(WorkerEvent::Cancel), WorkerAction::StopTriggers);
    // A tick that fires after cancellation requests nothing.
    assert_eq!(d.listen(WorkerEvent::Request(RegenBody { init: false })), WorkerAction::Ignore);
    assert_eq!(d.listen(WorkerEvent::Cancel), WorkerAction::Ignore);
    bar.finish_shutdown();
    assert_eq!(bar.phase(), BarPhase::Stopped);
}

#[test]
fn interval_zero_is_rejected() {
    assert_eq!(
        interval_plan(Some(interval_from_secs(0.0))),
        IntervalPlan::Rejected(IntervalProblem::Zero)
    );
}

#[test]
fn interval_below_a_millisecond_is_clamped() {
    assert_eq!(
        interval_plan(Some(interval_from_secs(0.0005))),
        IntervalPlan::Every { secs: 0, nanos: 1_000_000, clamped: true }
    );
}

#[test]
fn interval_absent_is_disabled() {
    assert_eq!(interval_plan(None), IntervalPlan::Disabled);
}

#[test]
fn interval_negative_is_unrepresentable() {
    assert_eq!(
        interval_plan(Some(interval_from_secs(-1.0))),
        IntervalPlan::Rejected(IntervalProblem::Unrepresentable)
    );
    assert_eq!(
        interval_plan(Some(interval_from_secs(f32::NAN))),
        IntervalPlan::Rejected(IntervalProblem::Unrepresentable)
    );
}

#[test]
fn interval_regular_is_kept() {
    assert_eq!(
        interval_plan(Some(interval_from_secs(2.5))),
        IntervalPlan::Every { secs: 2, nanos: 500_000_000, clamped: false }
    );
    assert_eq!(
        interval_plan(Some(IntervalSetting::Duration { secs: 0, nanos: 1_000_000 })),
        IntervalPlan::Every { secs: 0, nanos: 1_000_000, clamped: false }
    );
}

#[test]
fn repeated_snapshot_is_suppressed() {
    let mut bar: Bar<Block> = Bar::new(config_of(Vec::new()), |b: Block| b);
    let mut one = Body::new();
    one.full_text = Some("x".to_string());
    let snapshot = vec![one.clone()];
    assert!(bar.refresh_blocks(&snapshot));
    assert!(!bar.refresh_blocks(&snapshot.clone()));
    let mut two = one.clone();
    two.full_text = Some("y".to_string());
    assert!(bar.refresh_blocks(&vec![two]));
    assert!(bar.refresh_blocks(&snapshot));
}

#[test]
fn empty_snapshot_is_written_once() {
    let mut bar: Bar<Block> = Bar::new(config_of(Vec::new()), |b: Block| b);
    assert!(bar.refresh_blocks(&Vec::new()));
    assert!(!bar.refresh_blocks(&Vec::new()));
}

#[test]
fn fingerprint_depends_on_content_and_order() {
    let mut a = Body::new();
    a.full_text = Some("a".to_string());
    let mut b = Body::new();
    b.full_text = Some("b".to_string());
    let ab = smolbar::bar::Hash::new(&vec![a.clone(), b.clone()]);
    assert_eq!(ab, smolbar::bar::Hash::new(&vec![a.clone(), b.clone()]));
    assert_ne!(ab, smolbar::bar::Hash::new(&vec![b.clone(), a.clone()]));
    assert_ne!(ab, smolbar::bar::Hash::new(&vec![a]));
}

#[test]
fn merge_reads_fields_by_line_with_fallbacks() {
    let mut local = toml_block(Some("cmd"), Some("["), Some("local"));
    local.postfix = Some("]".to_string());
    local.body.border_top = Some(7);
    local.body.color = Some("#ffffff".to_string());
    let mut global = Body::new();
    global.border_bottom = Some(3);
    global.separator_block_width = Some(9);
    let output = "text\nshort\n\n\nred\nnot a number\n+12\n\n\n\nCENTER\n\n\ntrue\nmaybe\n\nNone\n";
    let body = merge_output(output, &local, &global);
    assert_eq!(body.full_text.as_deref(), Some("[text]"));
    assert_eq!(body.short_text.as_deref(), Some("short"));
    assert_eq!(body.color.as_deref(), Some(""));
    assert_eq!(body.border.as_deref(), Some("red"));
    assert_eq!(body.border_top, Some(7));
    assert_eq!(body.border_bottom, Some(12));
    assert_eq!(body.border_left, None);
    assert_eq!(body.align, Some(Align::Center));
    assert_eq!(body.urgent, Some(true));
    assert_eq!(body.separator, None);
    assert_eq!(body.separator_block_width, Some(9));
    assert_eq!(body.markup, Some(Markup::Plain));
}

#[test]
fn merge_of_empty_output_uses_configuration() {
    let mut local = toml_block(Some("cmd"), Some("> "), None);
    local.body.color = Some("#00ff00".to_string());
    let mut global = Body::new();
    global.full_text = Some(String::new());
    global.color = Some("#000000".to_string());
    let body = merge_output("", &local, &global);
    assert_eq!(body.full_text.as_deref(), Some("> "));
    assert_eq!(body.color.as_deref(), Some("#00ff00"));
    let bare = merge_output("", &toml_block(None, Some("> "), None), &Body::new());
    assert_eq!(bare.full_text, None);
}

#[test]
fn initial_regeneration_publishes_before_command() {
    let mut block = Block::new(toml_block(Some("date"), Some("T: "), None), Body::new(), 3, 4);
    assert_eq!(block.id(), 3);
    assert_eq!(block.queue_capacity(), 8);
    let init = RegenBody { init: true };
    assert!(block.publishes_before_command(init));
    assert!(!block.publishes_before_command(RegenBody { init: false }));
    assert_eq!(block.listen(WorkerEvent::Request(init)), WorkerAction::Regenerate(init));
    let mut global = Body::new();
    global.full_text = Some(String::new());
    let mut block = Block::new(toml_block(Some("date"), Some("T: "), None), global, 0, 1);
    block.listen(WorkerEvent::Request(init));
    assert!(block.update_body(""));
    assert_eq!(block.body().full_text.as_deref(), Some("T: "));
    assert!(!block.update_body(""));
}

#[test]
fn requests_during_regeneration_queue_in_order() {
    let mut block = Block::new(toml_block(Some("date"), None, None), Body::new(), 0, 1);
    let first = RegenBody { init: true };
    let second = RegenBody { init: false };
    assert_eq!(block.listen(WorkerEvent::Completed), WorkerAction::Ignore);
    assert_eq!(block.listen(WorkerEvent::Request(first)), WorkerAction::Regenerate(first));
    assert_eq!(block.listen(WorkerEvent::Request(second)), WorkerAction::Wait);
    assert_eq!(block.state(), WorkerState::Regenerating);
    assert_eq!(block.listen(WorkerEvent::Completed), WorkerAction::Regenerate(second));
    assert_eq!(block.listen(WorkerEvent::Completed), WorkerAction::Wait);
    assert_eq!(block.state(), WorkerState::Idle);
}

#[test]
fn queue_capacity_is_twice_the_blocks_at_least_two() {
    let cap = |n: usize| Block::new(toml_block(None, None, None), Body::new(), 0, n).queue_capacity();
    assert_eq!(cap(0), 2);
    assert_eq!(cap(1), 2);
    assert_eq!(cap(5), 10);
    assert_eq!(cap(usize::MAX), usize::MAX);
}

#[test]
fn failures_fall_back_with_warnings() {
    let toml = toml_block(Some("cmd"), None, Some("fallback"));
    let mut block = Block::new(toml.clone(), Body::new(), 0, 1);
    block.listen(WorkerEvent::Request(RegenBody { init: false }));
    let r = block.complete_regeneration(CommandOutcome::Exited {
        success: true,
        stdout: vec![0xff, b'\n'],
    });
    assert_eq!(r.warnings, vec![RegenWarning::InvalidUtf8]);
    assert_eq!(block.body().full_text.as_deref(), Some("fallback"));
    let r = block.complete_regeneration(CommandOutcome::SpawnFailed);
    assert_eq!(r.warnings, vec![RegenWarning::SpawnFailed]);
    assert!(!r.refresh);
    let r = block.complete_regeneration(CommandOutcome::WaitFailed);
    assert_eq!(r.warnings, vec![RegenWarning::WaitFailed]);
    let r = block.complete_regeneration(CommandOutcome::Exited {
        success: false,
        stdout: vec![0xc3],
    });
    assert_eq!(r.warnings, vec![RegenWarning::ExitFailure, RegenWarning::InvalidUtf8]);
    let r = block.complete_regeneration(CommandOutcome::Exited {
        success: true,
        stdout: "héllo".as_bytes().to_vec(),
    });
    assert!(r.refresh);
    assert_eq!(block.body().full_text.as_deref(), Some("héllo"));
}

#[test]
fn header_changes_are_noticed_after_first_write() {
    let mut bar: Bar<Block> = Bar::new(config_of(Vec::new()), |b: Block| b);
    let mut other = Header::default();
    other.click_events = Some(true);
    assert!(!bar.header_change_ignored(&other));
    assert_eq!(bar.write_header(), Header::default());
    assert!(bar.header_change_ignored(&other));
    assert!(!bar.header_change_ignored(&Header::default()));
    assert_eq!(bar.header(), Header::default());
    assert_eq!(bar.config_path(), "/etc/bar/config.toml");
}

#[test]
fn header_defaults() {
    let h = Header::default();
    assert_eq!(h.version, 1);
    assert_eq!(h.click_events, Some(false));
    assert_eq!(h.effective_cont_signal(), Signal::SigCont);
    assert_eq!(h.effective_stop_signal(), Signal::SigStop);
    assert_eq!(Header::default_version(), 1);
    let bare = Header { version: 1, click_events: None, cont_signal: None, stop_signal: Some(Signal::SigTerm) };
    assert_eq!(bare.effective_cont_signal(), Signal::SigCont);
    assert_eq!(bare.effective_stop_signal(), Signal::SigTerm);
    assert_eq!(Signal::SigUsr1.name(), "SIGUSR1");
    assert_eq!(Signal::SigWinch.name(), "SIGWINCH");
}

#[test]
fn body_defaults() {
    let d = Body::default();
    assert_eq!(d.border_top, Some(1));
    assert_eq!(d.border_right, Some(1));
    assert_eq!(d.separator_block_width, Some(9));
    assert_eq!(d.align, Some(Align::Left));
    assert_eq!(d.markup, Some(Markup::Plain));
    assert_eq!(d.full_text, None);
    let n = Body::new();
    assert_eq!(n.border_top, None);
    assert_eq!(n.markup, None);
    assert!(n.same_as(&Body::new()));
    assert!(!n.same_as(&d));
}

#[test]
fn config_check() {
    let mut toml = config_of(Vec::new()).toml;
    toml.header.version = 2;
    let checked = toml.check().unwrap();
    assert!(checked.header_version_mismatch);
    assert_eq!(checked.toml.body.full_text.as_deref(), Some(""));
    let toml = config_of(Vec::new()).toml;
    assert_eq!(toml.check_with(false).unwrap_err(), ConfigError::UnsupportedVersion);
    let mut toml = config_of(Vec::new()).toml;
    toml.body.full_text = Some("kept".to_string());
    let checked = toml.check_with(true).unwrap();
    assert!(!checked.header_version_mismatch);
    assert_eq!(checked.toml.body.full_text.as_deref(), Some("kept"));
    let mut toml = config_of(Vec::new()).toml;
    toml.smolbar_version = semver::VersionReq::parse(">=99").unwrap();
    assert_eq!(toml.check().unwrap_err(), ConfigError::UnsupportedVersion);
    let mut toml = config_of(Vec::new()).toml;
    toml.smolbar_version = semver::VersionReq::parse("0.8").unwrap();
    assert!(toml.check().is_ok());
    assert_eq!(TomlBar::current_smolbar_version(), semver::Version::new(0, 8, 0));
}

#[test]
fn error_from_io() {
    let e: smolbar::Error = std::io::Error::new(std::io::ErrorKind::Other, "boom").into();
    assert!(matches!(e, smolbar::Error::Io(_)));
    assert_eq!(e.fixed_message(), None);
    assert_eq!(
        smolbar::Error::NoConfig.fixed_message(),
        Some("no configuration path found (try passing one with `--config`)")
    );
}

#[test]
fn frames_join_blocks() {
    assert_eq!(blocks_frame(&Vec::new()), "[],\n");
    assert_eq!(blocks_frame(&vec!["{}".to_string()]), "[{}],\n");
    assert_eq!(
        blocks_frame(&vec!["{\"a\"}".to_string(), "{}".to_string(), "{}".to_string()]),
        "[{\"a\"},\n{},\n{}],\n"
    );
    assert_eq!(header_trailer(), "\n[");
}

#[test]
fn config_location_order() {
    assert!(matches!(config_source(true, true, true), Ok(ConfigSource::Flag)));
    assert!(matches!(config_source(false, true, true), Ok(ConfigSource::XdgConfigHome)));
    assert!(matches!(config_source(false, false, true), Ok(ConfigSource::Home)));
    assert!(matches!(config_source(false, false, false), Err(smolbar::Error::NoConfig)));
}
