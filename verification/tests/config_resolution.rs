use rinertia::config::{
    curve_kind, is_set, mode_flags, resolve, warn_unused, warn_unused_curve_params, Args, Config,
    CurveParam, DampingCurve, Defaults, DeviceConfig, InterruptConfig, PointerConfig, ResolvedArgs,
    ScrollConfig, DEFAULT_LINEAR_DECEL_MS, DEFAULT_MULTITOUCH_COOLDOWN, DEFAULT_NATURAL_SCROLL,
};

const DEFAULT_DAMPING: f64 = 0.05;

fn defaults() -> Defaults<f64> {
    Defaults {
        damping: DEFAULT_DAMPING,
        phase_threshold: 25.0,
        time_constant_ms: 325.0,
        stop_threshold: 60.0,
        min_scroll_velocity: 120.0,
        scroll_factor: 1.0,
        tp_to_hires: 5.0,
        pointer_drag: 0.15,
        pointer_speed_factor: 0.0075,
        pointer_min_velocity: 2000.0,
    }
}

/// The flags of `rinertia` given no option.
fn no_flags() -> Args<f64> {
    Args::default()
}

fn scroll_cfg(scroll: ScrollConfig<f64>) -> Config<f64> {
    Config { scroll: Some(scroll), ..Default::default() }
}

fn run(cli: &Args<f64>, cfg: &Config<f64>) -> ResolvedArgs<f64> {
    resolve(cli, cfg, &defaults())
}

#[test]
fn cli_beats_config_beats_default() {
    let cfg = scroll_cfg(ScrollConfig { damping: Some(0.2), ..Default::default() });
    assert_eq!(run(&no_flags(), &cfg).damping, 0.2);
    // rinertia --damping 0.3
    let cli = Args { damping: Some(0.3), ..no_flags() };
    assert_eq!(run(&cli, &cfg).damping, 0.3);
    assert_eq!(run(&no_flags(), &Config::default()).damping, DEFAULT_DAMPING);
}

#[test]
fn natural_scroll_resolution() {
    let cfg = scroll_cfg(ScrollConfig { natural_scroll: Some(true), ..Default::default() });
    assert!(run(&no_flags(), &cfg).natural_scroll);
    // rinertia --no-natural-scroll
    let no_natural = Args { no_natural_scroll: true, ..no_flags() };
    assert!(!run(&no_natural, &cfg).natural_scroll);
    // rinertia --natural-scroll
    let natural = Args { natural_scroll: true, ..no_flags() };
    assert!(run(&natural, &Config::default()).natural_scroll);
    assert_eq!(run(&no_flags(), &Config::default()).natural_scroll, DEFAULT_NATURAL_SCROLL);
}

#[test]
fn mode_from_cli_or_enabled_flags() {
    assert_eq!(run(&no_flags(), &Config::default()).mode, "scroll");

    let both = Config {
        scroll: Some(ScrollConfig { enabled: Some(true), ..Default::default() }),
        pointer: Some(PointerConfig { enabled: Some(true), ..Default::default() }),
        ..Default::default()
    };
    assert_eq!(run(&no_flags(), &both).mode, "both");

    let pointer_only = Config {
        scroll: Some(ScrollConfig { enabled: Some(false), ..Default::default() }),
        pointer: Some(PointerConfig { enabled: Some(true), ..Default::default() }),
        ..Default::default()
    };
    assert_eq!(run(&no_flags(), &pointer_only).mode, "pointer");

    // rinertia --mode pointer
    let cli = Args { mode: Some("pointer".to_string()), ..no_flags() };
    assert_eq!(run(&cli, &Config::default()).mode, "pointer");
}

fn opt_f64(t: &toml::Table, key: &str) -> Option<f64> {
    t.get(key).and_then(|v| v.as_float())
}

fn opt_bool(t: &toml::Table, key: &str) -> Option<bool> {
    t.get(key).and_then(|v| v.as_bool())
}

fn opt_u64(t: &toml::Table, key: &str) -> Option<u64> {
    t.get(key).and_then(|v| v.as_integer()).map(|i| i as u64)
}

fn opt_i32(t: &toml::Table, key: &str) -> Option<i32> {
    t.get(key).and_then(|v| v.as_integer()).map(|i| i as i32)
}

fn opt_string(t: &toml::Table, key: &str) -> Option<String> {
    t.get(key).and_then(|v| v.as_str()).map(|s| s.to_string())
}

/// Reads a configuration file's text into a `Config`, table by table.
fn config_from_toml(text: &str) -> Config<f64> {
    let root: toml::Table = toml::from_str(text).unwrap();
    let table = |name: &str| root.get(name).and_then(|v| v.as_table()).cloned();
    Config {
        device: table("device").map(|d| DeviceConfig {
            path: opt_string(&d, "path"),
            name: opt_string(&d, "name"),
        }),
        scroll: table("scroll").map(|s| ScrollConfig {
            enabled: opt_bool(&s, "enabled"),
            damping: opt_f64(&s, "damping"),
            damping_curve: opt_string(&s, "damping_curve"),
            phase_threshold: opt_f64(&s, "phase_threshold"),
            linear_decel_ms: opt_i32(&s, "linear_decel_ms"),
            linear_stop_hires: opt_i32(&s, "linear_stop_hires"),
            time_constant_ms: opt_f64(&s, "time_constant_ms"),
            stop_threshold: opt_f64(&s, "stop_threshold"),
            tail_scroll_ms: opt_u64(&s, "tail_scroll_ms"),
            min_velocity: opt_f64(&s, "min_velocity"),
            scroll_factor: opt_f64(&s, "scroll_factor"),
            tp_to_hires: opt_f64(&s, "tp_to_hires"),
            velocity_stale_ms: opt_u64(&s, "velocity_stale_ms"),
            natural_scroll: opt_bool(&s, "natural_scroll"),
            multitouch_cooldown: opt_u64(&s, "multitouch_cooldown"),
        }),
        pointer: table("pointer").map(|p| PointerConfig {
            enabled: opt_bool(&p, "enabled"),
            drag: opt_f64(&p, "drag"),
            speed_factor: opt_f64(&p, "speed_factor"),
            min_velocity: opt_f64(&p, "min_velocity"),
        }),
        interrupt: table("interrupt").map(|i| InterruptConfig { enabled: opt_bool(&i, "enabled") }),
        log_level: opt_string(&root, "log_level"),
    }
}

#[test]
fn toml_round_trip() {
    let cfg = config_from_toml(
        r#"
            log_level = "debug"
            [scroll]
            damping = 0.07
            natural_scroll = true
            "#,
    );
    let r = run(&no_flags(), &cfg);
    assert_eq!(r.damping, 0.07);
    assert!(r.natural_scroll);
    assert_eq!(r.log_level, "debug");
}

#[test]
fn defaults_fill_every_setting() {
    let r = run(&no_flags(), &Config::default());
    assert_eq!(r.device, None);
    assert_eq!(r.device_name, None);
    assert_eq!(r.damping_curve, "dual");
    assert_eq!(r.linear_decel_ms, DEFAULT_LINEAR_DECEL_MS);
    assert_eq!(r.linear_decel_ms, 384);
    assert_eq!(r.linear_stop_hires, 1);
    assert_eq!(r.tail_scroll_ms, 0);
    assert_eq!(r.velocity_stale_ms, 150);
    assert_eq!(r.multitouch_cooldown, DEFAULT_MULTITOUCH_COOLDOWN);
    assert_eq!(r.multitouch_cooldown, 500);
    assert_eq!(r.log_level, "info");
    assert_eq!(r.phase_threshold, 25.0);
    assert_eq!(r.pointer_speed_factor, 0.0075);
    assert!(!r.no_interrupt);
    assert!(!r.dry);
}

#[test]
fn device_and_interrupt_layering() {
    let cfg = Config {
        device: Some(DeviceConfig {
            path: Some("/dev/input/event7".to_string()),
            name: Some("ELAN".to_string()),
        }),
        interrupt: Some(InterruptConfig { enabled: Some(false) }),
        log_level: Some("warn".to_string()),
        ..Default::default()
    };
    let r = run(&no_flags(), &cfg);
    assert_eq!(r.device.as_deref(), Some("/dev/input/event7"));
    assert_eq!(r.device_name.as_deref(), Some("ELAN"));
    assert!(r.no_interrupt);
    assert_eq!(r.log_level, "warn");

    let cli = Args {
        device: Some("/dev/input/event3".to_string()),
        log_level: Some("trace".to_string()),
        dry: true,
        ..no_flags()
    };
    let r = run(&cli, &cfg);
    assert_eq!(r.device.as_deref(), Some("/dev/input/event3"));
    assert_eq!(r.device_name.as_deref(), Some("ELAN"));
    assert_eq!(r.log_level, "trace");
    assert!(r.dry);

    let enabled = Config { interrupt: Some(InterruptConfig { enabled: Some(true) }), ..Default::default() };
    assert!(!run(&no_flags(), &enabled).no_interrupt);
    let cli = Args { no_interrupt: true, ..no_flags() };
    assert!(run(&cli, &enabled).no_interrupt);
}

#[test]
fn pointer_settings_layering() {
    let cfg = Config {
        pointer: Some(PointerConfig { drag: Some(0.3), ..Default::default() }),
        scroll: Some(ScrollConfig { damping_curve: Some("expo".to_string()), ..Default::default() }),
        ..Default::default()
    };
    let r = run(&no_flags(), &cfg);
    assert_eq!(r.pointer_drag, 0.3);
    assert_eq!(r.pointer_min_velocity, 2000.0);
    assert_eq!(r.damping_curve, "expo");
    let cli = Args { pointer_drag: Some(0.5), damping_curve: Some("macos".to_string()), ..no_flags() };
    let r = run(&cli, &cfg);
    assert_eq!(r.pointer_drag, 0.5);
    assert_eq!(r.damping_curve, "macos");
}

#[test]
fn mode_flags_per_mode() {
    assert_eq!(mode_flags("scroll"), (true, false));
    assert_eq!(mode_flags("pointer"), (false, true));
    assert_eq!(mode_flags("both"), (true, true));
    assert_eq!(mode_flags("Scroll"), (false, false));
}

#[test]
fn curve_names() {
    assert_eq!(curve_kind("dual"), DampingCurve::Dual);
    assert_eq!(curve_kind("expo"), DampingCurve::Expo);
    assert_eq!(curve_kind("macos"), DampingCurve::Macos);
    assert_eq!(curve_kind("linear"), DampingCurve::Unknown);
}

#[test]
fn unused_curve_settings_are_reported() {
    let cfg = scroll_cfg(ScrollConfig { stop_threshold: Some(50.0), ..Default::default() });
    let cli = Args { time_constant_ms: Some(300.0), damping: Some(0.1), ..no_flags() };
    let r = run(&cli, &cfg);
    assert_eq!(r.damping_curve, "dual");
    assert_eq!(
        warn_unused_curve_params(&cli, &cfg, &r),
        vec![CurveParam::TimeConstantMs, CurveParam::StopThreshold]
    );

    let cli = Args {
        damping_curve: Some("macos".to_string()),
        damping: Some(0.1),
        linear_stop_hires: Some(2),
        ..no_flags()
    };
    let r = run(&cli, &cfg);
    assert_eq!(
        warn_unused_curve_params(&cli, &cfg, &r),
        vec![CurveParam::Damping, CurveParam::LinearStopHires]
    );

    let cli = Args { damping_curve: Some("expo".to_string()), damping: Some(0.1), ..no_flags() };
    let r = run(&cli, &cfg);
    assert_eq!(warn_unused_curve_params(&cli, &cfg, &r), vec![CurveParam::StopThreshold]);

    let cli = Args { damping_curve: Some("other".to_string()), damping: Some(0.1), ..no_flags() };
    let r = run(&cli, &cfg);
    assert!(warn_unused_curve_params(&cli, &cfg, &r).is_empty());
}

#[test]
fn warn_unused_keeps_set_ones_in_order() {
    let params = [
        (CurveParam::PhaseThreshold, true),
        (CurveParam::LinearDecelMs, false),
        (CurveParam::StopThreshold, true),
    ];
    assert_eq!(warn_unused(&params), vec![CurveParam::PhaseThreshold, CurveParam::StopThreshold]);
    assert_eq!(CurveParam::PhaseThreshold.name(), "phase_threshold");
    assert_eq!(CurveParam::LinearStopHires.name(), "linear_stop_hires");
}

#[test]
fn is_set_from_either_layer() {
    assert!(is_set(Some(1), None));
    assert!(is_set(None, Some(1)));
    assert!(!is_set::<i32>(None, None));
}
