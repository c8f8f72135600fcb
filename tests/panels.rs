use omnibars::attrs::{Attrs, Color};
use omnibars::clock::{until_boundary, Clock, Days, Hours, Minutes, Precision, Seconds, Unit, WallTime};
use omnibars::custom::{ConfigError, Custom};
use omnibars::pulseaudio::Pulseaudio;
use omnibars::ramp::{Ramp, RampStep};
use omnibars::relay::{Relay, RelayAction, RelayState, WorkerStatus};
use omnibars::trigger::TriggerOrOnce;
use omnibars::workspaces::{
    nonempty_desktops, style_of, workspace_names, ClientInfo, Highlight, RunStyle, WatchList,
    WorkspaceEvents, XWorkspaces,
};

const RED: Color = Color { r: 255, g: 0, b: 0, a: 255 };
const BLUE: Color = Color { r: 0, g: 0, b: 255, a: 255 };

fn at(hour: u32, minute: u32, second: u32, nanosecond: u32) -> WallTime {
    WallTime { hour, minute, second, nanosecond }
}

fn full(font: &str, fg: Color, bg: Color) -> Attrs {
    Attrs { font: Some(font.to_string()), fg: Some(fg), bg: Some(bg) }
}

fn same(a: &Attrs, b: &Attrs) -> bool {
    a.font == b.font && a.fg == b.fg && a.bg == b.bg
}

fn ramp(steps: &[(u32, &str)]) -> Ramp {
    let steps = steps
        .iter()
        .map(|(t, g)| RampStep { threshold: *t, glyph: g.to_string() })
        .collect();
    Ramp::new(steps).expect("well-formed ramp")
}

#[test]
fn minute_tick_lands_on_next_minute() {
    assert_eq!(until_boundary(Unit::Minute, &at(12, 34, 56, 700_000_000)), 3_300_000_000);
}

#[test]
fn every_precision_lands_on_its_boundary() {
    let t = at(12, 34, 56, 700_000_000);
    assert_eq!(until_boundary(Unit::Second, &t), 300_000_000);
    assert_eq!(until_boundary(Unit::Hour, &t), 1_503_300_000_000);
    assert_eq!(until_boundary(Unit::Day, &t), 41_103_300_000_000);
}

#[test]
fn boundary_instant_waits_a_whole_unit() {
    let t = at(0, 0, 0, 0);
    assert_eq!(until_boundary(Unit::Second, &t), 1_000_000_000);
    assert_eq!(until_boundary(Unit::Minute, &t), 60_000_000_000);
    assert_eq!(until_boundary(Unit::Hour, &t), 3_600_000_000_000);
    assert_eq!(until_boundary(Unit::Day, &t), 86_400_000_000_000);
}

#[test]
fn leap_second_waits_for_its_end() {
    let t = at(23, 59, 59, 1_500_000_000);
    assert_eq!(until_boundary(Unit::Second, &t), 500_000_000);
    assert_eq!(until_boundary(Unit::Minute, &t), 500_000_000);
    assert_eq!(until_boundary(Unit::Day, &t), 500_000_000);
}

#[test]
fn live_ticks_stay_within_their_unit() {
    let d = Days::tick();
    assert!(d > 0 && d <= 86_400_000_000_000);
    let h = Hours::tick();
    assert!(h > 0 && h <= 3_600_000_000_000);
    let m = Minutes::tick();
    assert!(m > 0 && m <= 60_000_000_000);
    let s = Seconds::tick();
    assert!(s > 0 && s <= 1_000_000_000);
}

#[test]
fn clock_defaults_follow_precision() {
    assert_eq!(Clock::<Days>::default().format_str, "%Y-%m-%d");
    assert_eq!(Clock::<Hours>::default().format_str, "%Y-%m-%d %H");
    assert_eq!(Clock::<Minutes>::default().format_str, "%Y-%m-%d %H:%M");
    assert_eq!(Clock::<Seconds>::default().format_str, "%Y-%m-%d %T");
    assert!(same(&Clock::<Days>::default().attrs, &Attrs::unset()));
}

#[test]
fn clock_overlays_global_attrs() {
    let own = Attrs { font: None, fg: Some(RED), bg: None };
    let clock = Clock::<Minutes>::new("%H:%M".to_string(), own)
        .with_global_attrs(full("mono 10", BLUE, BLUE));
    assert_eq!(clock.format_str, "%H:%M");
    assert!(same(&clock.attrs, &full("mono 10", RED, BLUE)));
}

#[test]
fn overlay_of_unset_child_keeps_parent() {
    let parent = full("sans 9", RED, BLUE);
    let r = parent.duplicate().overlay(Attrs::unset());
    assert!(same(&r, &parent));
}

#[test]
fn overlay_of_full_child_gives_child() {
    let child = full("mono 12", BLUE, RED);
    let r = full("sans 9", RED, BLUE).overlay(child.duplicate());
    assert!(same(&r, &child));
}

#[test]
fn overlay_mixes_fields() {
    let parent = Attrs { font: Some("sans".to_string()), fg: Some(RED), bg: None };
    let child = Attrs { font: None, fg: Some(BLUE), bg: None };
    let r = parent.overlay(child);
    assert_eq!(r.font.as_deref(), Some("sans"));
    assert_eq!(r.fg, Some(BLUE));
    assert_eq!(r.bg, None);
}

#[test]
fn apply_to_fills_unset_fields() {
    let mut a = Attrs { font: None, fg: Some(BLUE), bg: None };
    a.apply_to(&full("mono", RED, RED));
    assert!(same(&a, &full("mono", BLUE, RED)));
}

#[test]
fn ramp_rejects_bad_thresholds() {
    assert!(Ramp::new(vec![]).is_none());
    let steps = vec![
        RampStep { threshold: 0, glyph: "a".to_string() },
        RampStep { threshold: 10, glyph: "b".to_string() },
        RampStep { threshold: 10, glyph: "c".to_string() },
    ];
    assert!(Ramp::new(steps).is_none());
}

#[test]
fn ramp_boundaries_take_higher_step() {
    let r = ramp(&[(0, "low"), (100, "mid"), (200, "high")]);
    assert_eq!(r.select(0), "low");
    assert_eq!(r.select(99), "low");
    assert_eq!(r.select(100), "mid");
    assert_eq!(r.select(199), "mid");
    assert_eq!(r.select(200), "high");
    assert_eq!(r.select(u32::MAX), "high");
    assert_eq!(r.choose_index(150), 1);
}

#[test]
fn ramp_below_first_threshold_takes_first_step() {
    let r = ramp(&[(50, "a"), (60, "b")]);
    assert_eq!(r.select(3), "a");
}

#[test]
fn single_shot_signals_once() {
    let mut t = TriggerOrOnce::new(None);
    assert!(!t.is_interval());
    assert!(t.poll(false));
    for _ in 0..10 {
        assert!(!t.poll(true));
        assert!(!t.poll(false));
    }
}

#[test]
fn interval_follows_timer() {
    let mut t = TriggerOrOnce::new(Some(5));
    assert!(t.is_interval());
    assert!(!t.poll(false));
    assert!(t.poll(true));
    assert!(t.poll(true));
    assert!(!t.poll(false));
}

#[test]
fn relay_keeps_one_worker_under_back_to_back_polls() {
    let mut r = Relay::new();
    assert!(matches!(r.poll::<u32>(WorkerStatus::Running), RelayAction::Spawn));
    for _ in 0..5 {
        assert!(matches!(r.poll::<u32>(WorkerStatus::Running), RelayAction::Wait));
        assert!(r.is_outstanding());
    }
    assert!(matches!(r.poll(WorkerStatus::Done(Some(7u32))), RelayAction::Deliver(7)));
    assert_eq!(r.state, RelayState::Idle);
    assert!(matches!(r.poll::<u32>(WorkerStatus::Running), RelayAction::Spawn));
}

#[test]
fn relay_closed_source_is_silent() {
    let mut r = Relay::new();
    assert!(matches!(r.poll::<u32>(WorkerStatus::Running), RelayAction::Spawn));
    assert!(matches!(r.poll::<u32>(WorkerStatus::Done(None)), RelayAction::Exhausted));
    for _ in 0..3 {
        assert!(matches!(r.poll(WorkerStatus::Done(Some(1u32))), RelayAction::Exhausted));
    }
    assert_eq!(r.state, RelayState::Exhausted);
}

#[test]
fn custom_echo_runs_once_and_shows_trimmed_text() {
    let custom = Custom::new(Some("echo hi".to_string()), None).expect("command given");
    assert_eq!(Custom::shell_program(), "sh");
    assert_eq!(custom.shell_args(), vec!["-c".to_string(), "echo hi".to_string()]);
    let mut trigger = custom.trigger();
    let mut frames = Vec::new();
    for _ in 0..5 {
        if trigger.poll(false) {
            frames.push(Custom::text_of_output(b"hi\n"));
        }
    }
    assert_eq!(frames, vec!["hi".to_string()]);
}

#[test]
fn custom_without_command_is_refused() {
    assert_eq!(Custom::new(None, Some(3)).unwrap_err(), ConfigError::MissingCommand);
}

#[test]
fn custom_output_is_decoded_and_trimmed() {
    assert_eq!(Custom::text_of_output(b"  a b \t\n"), "a b");
    assert_eq!(Custom::text_of_output(b""), "");
    assert_eq!(Custom::text_of_output(b"x\xffy\n"), "x\u{fffd}y");
}

#[test]
fn pulseaudio_defaults() {
    let p = Pulseaudio::default();
    assert_eq!(p.sink, "@DEFAULT_SINK@");
    assert!(p.server.is_none() && p.ramp.is_none() && p.muted_ramp.is_none());
    assert_eq!(p.relay.state, RelayState::Idle);
}

#[test]
fn pulseaudio_label_picks_ramp_by_mute() {
    let p = Pulseaudio::new(
        Some("speakers".to_string()),
        None,
        Some(ramp(&[(0, "v- "), (32768, "v+ ")])),
        Some(ramp(&[(0, "m ")])),
        Attrs::unset(),
    );
    assert_eq!(p.sink, "speakers");
    assert_eq!(p.label(65536, false, "100%"), "v+ 100%");
    assert_eq!(p.label(100, false, "0%"), "v- 0%");
    assert_eq!(p.label(65536, true, "100%"), "m 100%");
}

#[test]
fn pulseaudio_label_without_muted_ramp_uses_normal_ramp() {
    let p = Pulseaudio::new(None, None, Some(ramp(&[(0, "a "), (10, "b ")])), None, Attrs::unset());
    assert_eq!(p.label(10, true, "x"), "b x");
    let bare = Pulseaudio::default();
    assert_eq!(bare.label(10, true, " 50%"), " 50%");
}

#[test]
fn pulseaudio_poll_delivers_readings() {
    let mut p = Pulseaudio::default();
    assert!(matches!(p.poll(WorkerStatus::Running), RelayAction::Spawn));
    assert!(matches!(p.poll(WorkerStatus::Done(Some((5, true)))), RelayAction::Deliver((5, true))));
}

#[test]
fn workspace_names_split_and_pad() {
    let names = workspace_names(b"web\0code\0chat\0", 3);
    assert_eq!(names, vec!["web", "code", "chat"]);
    let names = workspace_names(b"one\0two", 4);
    assert_eq!(names, vec!["one", "two", "?", "?"]);
    assert_eq!(workspace_names(b"", 2), vec!["", "?"]);
    assert!(workspace_names(b"a\0b\0", 0).is_empty());
}

#[test]
fn nonempty_desktops_counts_normal_windows() {
    let normal = 42;
    let clients = [
        ClientInfo { window_type: Some(normal), desktop: Some(0) },
        ClientInfo { window_type: Some(7), desktop: Some(2) },
        ClientInfo { window_type: Some(normal), desktop: Some(1) },
        ClientInfo { window_type: None, desktop: Some(2) },
        ClientInfo { window_type: Some(normal), desktop: None },
        ClientInfo { window_type: Some(normal), desktop: Some(1) },
    ];
    let mut set = nonempty_desktops(&clients, normal);
    set.sort();
    set.dedup();
    assert_eq!(set, vec![0, 1]);
}

#[test]
fn workspace_layout_styles_and_width() {
    let panel = XWorkspaces::new(
        0,
        6,
        Some(Highlight { height: 2, color: RED }),
        Attrs::unset(),
        Attrs::unset(),
        Attrs::unset(),
    );
    let names = workspace_names(b"web\0code\0chat\0", 3);
    assert_eq!(names.len(), 3);
    let sizes = [(30, 14), (40, 16), (35, 12)];
    let nonempty = [0, 1];
    let plan = panel.plan(&sizes, 1, &nonempty, 20);
    assert_eq!(plan.runs.len(), 3);
    assert_eq!(plan.runs[0].style, RunStyle::Nonempty);
    assert_eq!(plan.runs[1].style, RunStyle::Active);
    assert_eq!(plan.runs[2].style, RunStyle::Inactive);
    assert_eq!(plan.width, 30 + 40 + 35 + 2 * 6);
    assert_eq!(plan.runs[0].x, 0);
    assert_eq!(plan.runs[1].x, 36);
    assert_eq!(plan.runs[2].x, 82);
    assert_eq!(plan.runs[1].cell_width, 46);
    assert_eq!(plan.runs[0].text_x, 3);
    assert_eq!(plan.runs[2].text_slack, 8);
    assert!(plan.runs[1].highlighted && !plan.runs[0].highlighted && !plan.runs[2].highlighted);
}

#[test]
fn style_of_prefers_active() {
    assert_eq!(style_of(1, 1, &[1]), RunStyle::Active);
    assert_eq!(style_of(2, 1, &[2]), RunStyle::Nonempty);
    assert_eq!(style_of(3, 1, &[2]), RunStyle::Inactive);
}

#[test]
fn workspace_attrs_overlay_global() {
    let mut panel = XWorkspaces::new(
        0,
        0,
        None,
        Attrs { font: None, fg: Some(RED), bg: None },
        Attrs::unset(),
        Attrs::unset(),
    );
    panel.apply_global_attrs(&full("mono", BLUE, BLUE));
    assert!(same(panel.attrs_for(RunStyle::Active), &full("mono", RED, BLUE)));
    assert!(same(panel.attrs_for(RunStyle::Inactive), &full("mono", BLUE, BLUE)));
    let empty = panel.plan(&[], 0, &[], 10);
    assert!(empty.runs.is_empty());
    assert_eq!(empty.width, 0);
}

#[test]
fn watch_list_matches_its_atoms() {
    let w = WatchList { number_atom: 1, current_atom: 2, names_atom: 3 };
    assert!(w.watches(1) && w.watches(2) && w.watches(3));
    assert!(!w.watches(4));
}

#[test]
fn workspace_events_signal_at_once_then_wait_for_worker() {
    let mut e = WorkspaceEvents::new();
    assert!(matches!(e.poll(WorkerStatus::Running), RelayAction::Deliver(())));
    assert!(matches!(e.poll(WorkerStatus::Running), RelayAction::Spawn));
    assert!(matches!(e.poll(WorkerStatus::Running), RelayAction::Wait));
    assert!(matches!(e.poll(WorkerStatus::Done(Some(()))), RelayAction::Deliver(())));
}
