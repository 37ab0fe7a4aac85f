//! Settings: command-line flags, the TOML configuration file, and the rule that
//! combines them (a flag beats the file, the file beats the built-in default).
//!
//! The types are generic in `F`, the number type of the fractional settings
//! (damping, speeds, factors); their built-in defaults come in a [`Defaults`].

use vstd::prelude::*;

use crate::text::{chars_of, same_text};

verus! {

/// Built-in operating mode.
pub const DEFAULT_MODE: &'static str = "scroll";

/// Built-in damping curve.
pub const DEFAULT_DAMPING_CURVE: &'static str = "dual";

/// Built-in duration of the constant-deceleration phase, in milliseconds.
pub const DEFAULT_LINEAR_DECEL_MS: i32 = 384;

/// Built-in size at which the constant-deceleration phase stops, in
/// high-resolution wheel units.
pub const DEFAULT_LINEAR_STOP_HIRES: i32 = 1;

/// Built-in tail-scroll duration in milliseconds (0: off).
pub const DEFAULT_TAIL_SCROLL_MS: u64 = 0;

/// Built-in age, in milliseconds, after which velocity samples are stale.
pub const DEFAULT_VELOCITY_STALE_MS: u64 = 150;

/// Built-in natural-scroll setting.
pub const DEFAULT_NATURAL_SCROLL: bool = false;

/// Built-in cooldown after a multi-finger gesture, in milliseconds.
pub const DEFAULT_MULTITOUCH_COOLDOWN: u64 = 500;

/// Built-in log level.
pub const DEFAULT_LOG_LEVEL: &'static str = "info";

/// The `[device]` table of the configuration file.
pub struct DeviceConfig {
    pub path: Option<String>,
    pub name: Option<String>,
}

/// The `[scroll]` table of the configuration file.
pub struct ScrollConfig<F> {
    pub enabled: Option<bool>,
    pub damping: Option<F>,
    pub damping_curve: Option<String>,
    pub phase_threshold: Option<F>,
    pub linear_decel_ms: Option<i32>,
    pub linear_stop_hires: Option<i32>,
    pub time_constant_ms: Option<F>,
    pub stop_threshold: Option<F>,
    pub tail_scroll_ms: Option<u64>,
    pub min_velocity: Option<F>,
    pub scroll_factor: Option<F>,
    pub tp_to_hires: Option<F>,
    pub velocity_stale_ms: Option<u64>,
    pub natural_scroll: Option<bool>,
    pub multitouch_cooldown: Option<u64>,
}

/// The `[pointer]` table of the configuration file.
pub struct PointerConfig<F> {
    pub enabled: Option<bool>,
    pub drag: Option<F>,
    pub speed_factor: Option<F>,
    pub min_velocity: Option<F>,
}

/// The `[interrupt]` table of the configuration file.
pub struct InterruptConfig {
    pub enabled: Option<bool>,
}

/// The configuration file.
pub struct Config<F> {
    pub device: Option<DeviceConfig>,
    pub scroll: Option<ScrollConfig<F>>,
    pub pointer: Option<PointerConfig<F>>,
    pub interrupt: Option<InterruptConfig>,
    pub log_level: Option<String>,
}

/// The command-line flags.
pub struct Args<F> {
    pub config: Option<String>,
    pub device: Option<String>,
    pub device_name: Option<String>,
    pub mode: Option<String>,
    pub damping: Option<F>,
    pub damping_curve: Option<String>,
    pub phase_threshold: Option<F>,
    pub linear_decel_ms: Option<i32>,
    pub linear_stop_hires: Option<i32>,
    pub time_constant_ms: Option<F>,
    pub stop_threshold: Option<F>,
    pub tail_scroll_ms: Option<u64>,
    pub min_scroll_velocity: Option<F>,
    pub scroll_factor: Option<F>,
    pub tp_to_hires: Option<F>,
    pub velocity_stale_ms: Option<u64>,
    pub pointer_drag: Option<F>,
    pub pointer_speed_factor: Option<F>,
    pub pointer_min_velocity: Option<F>,
    pub multitouch_cooldown: Option<u64>,
    pub natural_scroll: bool,
    pub no_natural_scroll: bool,
    pub no_interrupt: bool,
    pub dry: bool,
    pub log_level: Option<String>,
}

/// The settings in effect.
pub struct ResolvedArgs<F> {
    pub device: Option<String>,
    pub device_name: Option<String>,
    pub mode: String,
    pub damping: F,
    pub damping_curve: String,
    pub phase_threshold: F,
    pub linear_decel_ms: i32,
    pub linear_stop_hires: i32,
    pub time_constant_ms: F,
    pub stop_threshold: F,
    pub tail_scroll_ms: u64,
    pub min_scroll_velocity: F,
    pub scroll_factor: F,
    pub tp_to_hires: F,
    pub velocity_stale_ms: u64,
    pub pointer_drag: F,
    pub pointer_speed_factor: F,
    pub pointer_min_velocity: F,
    pub multitouch_cooldown: u64,
    pub natural_scroll: bool,
    pub no_interrupt: bool,
    pub dry: bool,
    pub log_level: String,
}

/// Built-in defaults of the fractional settings.
#[derive(Clone, Copy)]
pub struct Defaults<F> {
    pub damping: F,
    pub phase_threshold: F,
    pub time_constant_ms: F,
    pub stop_threshold: F,
    pub min_scroll_velocity: F,
    pub scroll_factor: F,
    pub tp_to_hires: F,
    pub pointer_drag: F,
    pub pointer_speed_factor: F,
    pub pointer_min_velocity: F,
}

impl Default for DeviceConfig {
    fn default() -> (res: Self)
        ensures
            res.path is None,
            res.name is None,
    {
        DeviceConfig { path: None, name: None }
    }
}

impl Default for InterruptConfig {
    fn default() -> (res: Self)
        ensures
            res.enabled is None,
    {
        InterruptConfig { enabled: None }
    }
}

impl<F> Default for ScrollConfig<F> {
    fn default() -> (res: Self)
        ensures
            res == (ScrollConfig::<F> {
                enabled: None,
                damping: None,
                damping_curve: None,
                phase_threshold: None,
                linear_decel_ms: None,
                linear_stop_hires: None,
                time_constant_ms: None,
                stop_threshold: None,
                tail_scroll_ms: None,
                min_velocity: None,
                scroll_factor: None,
                tp_to_hires: None,
                velocity_stale_ms: None,
                natural_scroll: None,
                multitouch_cooldown: None,
            }),
    {
        ScrollConfig {
            enabled: None,
            damping: None,
            damping_curve: None,
            phase_threshold: None,
            linear_decel_ms: None,
            linear_stop_hires: None,
            time_constant_ms: None,
            stop_threshold: None,
            tail_scroll_ms: None,
            min_velocity: None,
            scroll_factor: None,
            tp_to_hires: None,
            velocity_stale_ms: None,
            natural_scroll: None,
            multitouch_cooldown: None,
        }
    }
}

impl<F> Default for PointerConfig<F> {
    fn default() -> (res: Self)
        ensures
            res == (PointerConfig::<F> {
                enabled: None,
                drag: None,
                speed_factor: None,
                min_velocity: None,
            }),
    {
        PointerConfig { enabled: None, drag: None, speed_factor: None, min_velocity: None }
    }
}

impl<F> Default for Config<F> {
    fn default() -> (res: Self)
        ensures
            res == (Config::<F> {
                device: None,
                scroll: None,
                pointer: None,
                interrupt: None,
                log_level: None,
            }),
    {
        Config { device: None, scroll: None, pointer: None, interrupt: None, log_level: None }
    }
}

impl<F> Default for Args<F> {
    /// No flag given.
    fn default() -> (res: Self)
        ensures
            res == (Args::<F> {
                config: None,
                device: None,
                device_name: None,
                mode: None,
                damping: None,
                damping_curve: None,
                phase_threshold: None,
                linear_decel_ms: None,
                linear_stop_hires: None,
                time_constant_ms: None,
                stop_threshold: None,
                tail_scroll_ms: None,
                min_scroll_velocity: None,
                scroll_factor: None,
                tp_to_hires: None,
                velocity_stale_ms: None,
                pointer_drag: None,
                pointer_speed_factor: None,
                pointer_min_velocity: None,
                multitouch_cooldown: None,
                natural_scroll: false,
                no_natural_scroll: false,
                no_interrupt: false,
                dry: false,
                log_level: None,
            }),
    {
        Args {
            config: None,
            device: None,
            device_name: None,
            mode: None,
            damping: None,
            damping_curve: None,
            phase_threshold: None,
            linear_decel_ms: None,
            linear_stop_hires: None,
            time_constant_ms: None,
            stop_threshold: None,
            tail_scroll_ms: None,
            min_scroll_velocity: None,
            scroll_factor: None,
            tp_to_hires: None,
            velocity_stale_ms: None,
            pointer_drag: None,
            pointer_speed_factor: None,
            pointer_min_velocity: None,
            multitouch_cooldown: None,
            natural_scroll: false,
            no_natural_scroll: false,
            no_interrupt: false,
            dry: false,
            log_level: None,
        }
    }
}

/// The first of the two that is present.
pub open spec fn first_of<T>(a: Option<T>, b: Option<T>) -> Option<T> {
    match a {
        Some(v) => Some(v),
        None => b,
    }
}

/// The flag's value if given, else the file's, else the default.
pub open spec fn layered<T>(cli: Option<T>, cfg: Option<T>, default: T) -> T {
    match first_of(cli, cfg) {
        Some(v) => v,
        None => default,
    }
}

/// The text of an optional string.
pub open spec fn text_of(o: Option<String>) -> Option<Seq<char>> {
    match o {
        Some(s) => Some(s@),
        None => None,
    }
}

/// A value of the `[scroll]` table, if the table is there.
pub open spec fn in_scroll<F, T>(cfg: Config<F>, f: spec_fn(ScrollConfig<F>) -> Option<T>) -> Option<T> {
    match cfg.scroll {
        Some(s) => f(s),
        None => None,
    }
}

/// A value of the `[pointer]` table, if the table is there.
pub open spec fn in_pointer<F, T>(cfg: Config<F>, f: spec_fn(PointerConfig<F>) -> Option<T>) -> Option<T> {
    match cfg.pointer {
        Some(p) => f(p),
        None => None,
    }
}

/// A value of the `[device]` table, if the table is there.
pub open spec fn in_device<F>(cfg: Config<F>, f: spec_fn(DeviceConfig) -> Option<String>) -> Option<String> {
    match cfg.device {
        Some(d) => f(d),
        None => None,
    }
}

/// The operating mode: the flag if given; else "both" when the file enables
/// both scrolling (on unless disabled) and the pointer (off unless enabled),
/// "pointer" when it enables only the pointer, and "scroll" otherwise.
pub open spec fn resolved_mode<F>(cli: Args<F>, cfg: Config<F>) -> Seq<char> {
    match cli.mode {
        Some(m) => m@,
        None => {
            let scroll_on = match in_scroll(cfg, |s: ScrollConfig<F>| s.enabled) {
                Some(b) => b,
                None => true,
            };
            let pointer_on = match in_pointer(cfg, |p: PointerConfig<F>| p.enabled) {
                Some(b) => b,
                None => false,
            };
            if scroll_on && pointer_on {
                "both"@
            } else if !scroll_on && pointer_on {
                "pointer"@
            } else {
                DEFAULT_MODE@
            }
        },
    }
}

/// Natural scrolling: `--natural-scroll` turns it on, else
/// `--no-natural-scroll` turns it off, else the file, else the default.
pub open spec fn resolved_natural_scroll<F>(cli: Args<F>, cfg: Config<F>) -> bool {
    if cli.natural_scroll {
        true
    } else if cli.no_natural_scroll {
        false
    } else {
        layered(None, in_scroll(cfg, |s: ScrollConfig<F>| s.natural_scroll), DEFAULT_NATURAL_SCROLL)
    }
}

/// Interrupt detection is off when the flag says so or the file disables it.
pub open spec fn resolved_no_interrupt<F>(cli: Args<F>, cfg: Config<F>) -> bool {
    cli.no_interrupt || match cfg.interrupt {
        Some(i) => i.enabled == Some(false),
        None => false,
    }
}

/// Copies an optional string.
fn clone_text(o: &Option<String>) -> (res: Option<String>)
    ensures
        text_of(res) == text_of(*o),
{
    match o {
        Some(s) => Some(s.clone()),
        None => None,
    }
}

/// The flag's value if given, else the file's, else the default.
pub fn pick<T: Copy>(cli: Option<T>, cfg: Option<T>, default: T) -> (res: T)
    ensures
        res == layered(cli, cfg, default),
{
    match cli {
        Some(v) => v,
        None => match cfg {
            Some(v) => v,
            None => default,
        },
    }
}

/// The operating mode (see [`resolved_mode`]).
fn resolve_mode<F: Copy>(cli: &Args<F>, cfg: &Config<F>) -> (res: String)
    ensures
        res@ == resolved_mode(*cli, *cfg),
{
    match &cli.mode {
        Some(m) => m.clone(),
        None => {
            let scroll_on = match &cfg.scroll {
                Some(s) => match s.enabled {
                    Some(b) => b,
                    None => true,
                },
                None => true,
            };
            let pointer_on = match &cfg.pointer {
                Some(p) => match p.enabled {
                    Some(b) => b,
                    None => false,
                },
                None => false,
            };
            if scroll_on && pointer_on {
                String::from_str("both")
            } else if !scroll_on && pointer_on {
                String::from_str("pointer")
            } else {
                String::from_str(DEFAULT_MODE)
            }
        },
    }
}

/// The damping curve: the flag, else the file, else the default.
pub fn resolve_damping_curve<F>(cli: &Args<F>, scroll: Option<&ScrollConfig<F>>) -> (res: String)
    ensures
        res@ == match first_of(
            text_of(cli.damping_curve),
            match scroll {
                Some(s) => text_of(s.damping_curve),
                None => None,
            },
        ) {
            Some(t) => t,
            None => DEFAULT_DAMPING_CURVE@,
        },
{
    match &cli.damping_curve {
        Some(c) => c.clone(),
        None => match scroll {
            Some(s) => match &s.damping_curve {
                Some(c) => c.clone(),
                None => String::from_str(DEFAULT_DAMPING_CURVE),
            },
            None => String::from_str(DEFAULT_DAMPING_CURVE),
        },
    }
}

/// Resolves the settings in effect: each flag, if given, beats the
/// configuration file, which beats the built-in default.
pub fn resolve<F: Copy>(cli: &Args<F>, cfg: &Config<F>, defaults: &Defaults<F>) -> (res:
    ResolvedArgs<F>)
    ensures
        text_of(res.device) == first_of(
            text_of(cli.device),
            text_of(in_device(*cfg, |d: DeviceConfig| d.path)),
        ),
        text_of(res.device_name) == first_of(
            text_of(cli.device_name),
            text_of(in_device(*cfg, |d: DeviceConfig| d.name)),
        ),
        res.mode@ == resolved_mode(*cli, *cfg),
        res.damping == layered(
            cli.damping,
            in_scroll(*cfg, |s: ScrollConfig<F>| s.damping),
            defaults.damping,
        ),
        res.damping_curve@ == match first_of(
            text_of(cli.damping_curve),
            text_of(in_scroll(*cfg, |s: ScrollConfig<F>| s.damping_curve)),
        ) {
            Some(t) => t,
            None => DEFAULT_DAMPING_CURVE@,
        },
        res.phase_threshold == layered(
            cli.phase_threshold,
            in_scroll(*cfg, |s: ScrollConfig<F>| s.phase_threshold),
            defaults.phase_threshold,
        ),
        res.linear_decel_ms == layered(
            cli.linear_decel_ms,
            in_scroll(*cfg, |s: ScrollConfig<F>| s.linear_decel_ms),
            DEFAULT_LINEAR_DECEL_MS,
        ),
        res.linear_stop_hires == layered(
            cli.linear_stop_hires,
            in_scroll(*cfg, |s: ScrollConfig<F>| s.linear_stop_hires),
            DEFAULT_LINEAR_STOP_HIRES,
        ),
        res.time_constant_ms == layered(
            cli.time_constant_ms,
            in_scroll(*cfg, |s: ScrollConfig<F>| s.time_constant_ms),
            defaults.time_constant_ms,
        ),
        res.stop_threshold == layered(
            cli.stop_threshold,
            in_scroll(*cfg, |s: ScrollConfig<F>| s.stop_threshold),
            defaults.stop_threshold,
        ),
        res.tail_scroll_ms == layered(
            cli.tail_scroll_ms,
            in_scroll(*cfg, |s: ScrollConfig<F>| s.tail_scroll_ms),
            DEFAULT_TAIL_SCROLL_MS,
        ),
        res.min_scroll_velocity == layered(
            cli.min_scroll_velocity,
            in_scroll(*cfg, |s: ScrollConfig<F>| s.min_velocity),
            defaults.min_scroll_velocity,
        ),
        res.scroll_factor == layered(
            cli.scroll_factor,
            in_scroll(*cfg, |s: ScrollConfig<F>| s.scroll_factor),
            defaults.scroll_factor,
        ),
        res.tp_to_hires == layered(
            cli.tp_to_hires,
            in_scroll(*cfg, |s: ScrollConfig<F>| s.tp_to_hires),
            defaults.tp_to_hires,
        ),
        res.velocity_stale_ms == layered(
            cli.velocity_stale_ms,
            in_scroll(*cfg, |s: ScrollConfig<F>| s.velocity_stale_ms),
            DEFAULT_VELOCITY_STALE_MS,
        ),
        res.pointer_drag == layered(
            cli.pointer_drag,
            in_pointer(*cfg, |p: PointerConfig<F>| p.drag),
            defaults.pointer_drag,
        ),
        res.pointer_speed_factor == layered(
            cli.pointer_speed_factor,
            in_pointer(*cfg, |p: PointerConfig<F>| p.speed_factor),
            defaults.pointer_speed_factor,
        ),
        res.pointer_min_velocity == layered(
            cli.pointer_min_velocity,
            in_pointer(*cfg, |p: PointerConfig<F>| p.min_velocity),
            defaults.pointer_min_velocity,
        ),
        res.multitouch_cooldown == layered(
            cli.multitouch_cooldown,
            in_scroll(*cfg, |s: ScrollConfig<F>| s.multitouch_cooldown),
            DEFAULT_MULTITOUCH_COOLDOWN,
        ),
        res.natural_scroll == resolved_natural_scroll(*cli, *cfg),
        res.no_interrupt == resolved_no_interrupt(*cli, *cfg),
        res.dry == cli.dry,
        res.log_level@ == match first_of(text_of(cli.log_level), text_of(cfg.log_level)) {
            Some(t) => t,
            None => DEFAULT_LOG_LEVEL@,
        },
{
    let device = match &cli.device {
        Some(d) => Some(d.clone()),
        None => match &cfg.device {
            Some(d) => clone_text(&d.path),
            None => None,
        },
    };
    let device_name = match &cli.device_name {
        Some(d) => Some(d.clone()),
        None => match &cfg.device {
            Some(d) => clone_text(&d.name),
            None => None,
        },
    };
    let mode = resolve_mode(cli, cfg);
    let scroll: Option<&ScrollConfig<F>> = match &cfg.scroll {
        Some(s) => Some(s),
        None => None,
    };
    let damping_curve = resolve_damping_curve(cli, scroll);

    let (
        s_damping,
        s_phase,
        s_decel,
        s_stop_hires,
        s_time_constant,
        s_stop_threshold,
        s_tail,
        s_min_velocity,
        s_factor,
        s_tp,
        s_stale,
        s_natural,
        s_cooldown,
    ) = match &cfg.scroll {
        Some(s) => (
            s.damping,
            s.phase_threshold,
            s.linear_decel_ms,
            s.linear_stop_hires,
            s.time_constant_ms,
            s.stop_threshold,
            s.tail_scroll_ms,
            s.min_velocity,
            s.scroll_factor,
            s.tp_to_hires,
            s.velocity_stale_ms,
            s.natural_scroll,
            s.multitouch_cooldown,
        ),
        None => (None, None, None, None, None, None, None, None, None, None, None, None, None),
    };
    let (p_drag, p_speed, p_min) = match &cfg.pointer {
        Some(p) => (p.drag, p.speed_factor, p.min_velocity),
        None => (None, None, None),
    };
    let natural_scroll = if cli.natural_scroll {
        true
    } else if cli.no_natural_scroll {
        false
    } else {
        pick(None, s_natural, DEFAULT_NATURAL_SCROLL)
    };
    let interrupt_disabled = match &cfg.interrupt {
        Some(i) => match i.enabled {
            Some(e) => !e,
            None => false,
        },
        None => false,
    };
    let log_level = match &cli.log_level {
        Some(l) => l.clone(),
        None => match &cfg.log_level {
            Some(l) => l.clone(),
            None => String::from_str(DEFAULT_LOG_LEVEL),
        },
    };
    ResolvedArgs {
        device,
        device_name,
        mode,
        damping: pick(cli.damping, s_damping, defaults.damping),
        damping_curve,
        phase_threshold: pick(cli.phase_threshold, s_phase, defaults.phase_threshold),
        linear_decel_ms: pick(cli.linear_decel_ms, s_decel, DEFAULT_LINEAR_DECEL_MS),
        linear_stop_hires: pick(cli.linear_stop_hires, s_stop_hires, DEFAULT_LINEAR_STOP_HIRES),
        time_constant_ms: pick(cli.time_constant_ms, s_time_constant, defaults.time_constant_ms),
        stop_threshold: pick(cli.stop_threshold, s_stop_threshold, defaults.stop_threshold),
        tail_scroll_ms: pick(cli.tail_scroll_ms, s_tail, DEFAULT_TAIL_SCROLL_MS),
        min_scroll_velocity: pick(
            cli.min_scroll_velocity,
            s_min_velocity,
            defaults.min_scroll_velocity,
        ),
        scroll_factor: pick(cli.scroll_factor, s_factor, defaults.scroll_factor),
        tp_to_hires: pick(cli.tp_to_hires, s_tp, defaults.tp_to_hires),
        velocity_stale_ms: pick(cli.velocity_stale_ms, s_stale, DEFAULT_VELOCITY_STALE_MS),
        pointer_drag: pick(cli.pointer_drag, p_drag, defaults.pointer_drag),
        pointer_speed_factor: pick(
            cli.pointer_speed_factor,
            p_speed,
            defaults.pointer_speed_factor,
        ),
        pointer_min_velocity: pick(cli.pointer_min_velocity, p_min, defaults.pointer_min_velocity),
        multitouch_cooldown: pick(cli.multitouch_cooldown, s_cooldown, DEFAULT_MULTITOUCH_COOLDOWN),
        natural_scroll,
        no_interrupt: cli.no_interrupt || interrupt_disabled,
        dry: cli.dry,
        log_level,
    }
}


/// Scrolling momentum is on in this mode.
pub open spec fn scroll_enabled(mode: Seq<char>) -> bool {
    mode == "scroll"@ || mode == "both"@
}

/// Pointer momentum is on in this mode.
pub open spec fn pointer_enabled(mode: Seq<char>) -> bool {
    mode == "pointer"@ || mode == "both"@
}

/// Which kinds of momentum a mode turns on: `(scroll, pointer)`.
pub fn mode_flags(mode: &str) -> (res: (bool, bool))
    ensures
        res.0 == scroll_enabled(mode@),
        res.1 == pointer_enabled(mode@),
{
    let m = chars_of(mode);
    let scroll = chars_of("scroll");
    let pointer = chars_of("pointer");
    let both = chars_of("both");
    let is_both = same_text(m.as_slice(), both.as_slice());
    let is_scroll = same_text(m.as_slice(), scroll.as_slice());
    let is_pointer = same_text(m.as_slice(), pointer.as_slice());
    (is_scroll || is_both, is_pointer || is_both)
}

/// The damping curves.
#[derive(Debug, Clone, Copy, PartialEq, Eq, Structural)]
pub enum DampingCurve {
    /// Exponential decay, then constant deceleration.
    Dual,
    /// Exponential decay only.
    Expo,
    /// Time-constant curve.
    Macos,
    /// A name that is none of these.
    Unknown,
}

/// The curve a name stands for.
pub open spec fn curve_named(name: Seq<char>) -> DampingCurve {
    if name == "dual"@ {
        DampingCurve::Dual
    } else if name == "expo"@ {
        DampingCurve::Expo
    } else if name == "macos"@ {
        DampingCurve::Macos
    } else {
        DampingCurve::Unknown
    }
}

/// The curve a name stands for.
pub fn curve_kind(name: &str) -> (res: DampingCurve)
    ensures
        res == curve_named(name@),
{
    let n = chars_of(name);
    let dual = chars_of("dual");
    let expo = chars_of("expo");
    let macos = chars_of("macos");
    if same_text(n.as_slice(), dual.as_slice()) {
        DampingCurve::Dual
    } else if same_text(n.as_slice(), expo.as_slice()) {
        DampingCurve::Expo
    } else if same_text(n.as_slice(), macos.as_slice()) {
        DampingCurve::Macos
    } else {
        DampingCurve::Unknown
    }
}

/// A setting that only some damping curves use.
#[derive(Debug, Clone, Copy, PartialEq, Eq, Structural)]
pub enum CurveParam {
    Damping,
    PhaseThreshold,
    LinearDecelMs,
    LinearStopHires,
    TimeConstantMs,
    StopThreshold,
}

/// The setting's name as the configuration file spells it.
pub open spec fn param_name(p: CurveParam) -> Seq<char> {
    match p {
        CurveParam::Damping => "damping"@,
        CurveParam::PhaseThreshold => "phase_threshold"@,
        CurveParam::LinearDecelMs => "linear_decel_ms"@,
        CurveParam::LinearStopHires => "linear_stop_hires"@,
        CurveParam::TimeConstantMs => "time_constant_ms"@,
        CurveParam::StopThreshold => "stop_threshold"@,
    }
}

impl CurveParam {
    /// The setting's name as the configuration file spells it.
    pub fn name(&self) -> (res: &'static str)
        ensures
            res@ == param_name(*self),
    {
        match self {
            CurveParam::Damping => "damping",
            CurveParam::PhaseThreshold => "phase_threshold",
            CurveParam::LinearDecelMs => "linear_decel_ms",
            CurveParam::LinearStopHires => "linear_stop_hires",
            CurveParam::TimeConstantMs => "time_constant_ms",
            CurveParam::StopThreshold => "stop_threshold",
        }
    }
}

/// The setting was given, as a flag or in the file.
pub fn is_set<T>(cli_val: Option<T>, cfg_val: Option<T>) -> (res: bool)
    ensures
        res == (cli_val is Some || cfg_val is Some),
{
    cli_val.is_some() || cfg_val.is_some()
}

/// The settings of `params` that are marked as set, in order.
pub open spec fn set_params(params: Seq<(CurveParam, bool)>) -> Seq<CurveParam>
    decreases params.len(),
{
    if params.len() == 0 {
        Seq::empty()
    } else {
        let rest = set_params(params.drop_last());
        if params.last().1 {
            rest.push(params.last().0)
        } else {
            rest
        }
    }
}

/// The settings of `params` that are marked as set: the ones to warn about.
pub fn warn_unused(params: &[(CurveParam, bool)]) -> (res: Vec<CurveParam>)
    ensures
        res@ == set_params(params@),
{
    let mut res: Vec<CurveParam> = Vec::new();
    let mut i: usize = 0;
    while i < params.len()
        invariant
            i <= params@.len(),
            res@ == set_params(params@.subrange(0, i as int)),
        decreases params.len() - i,
    {
        let (p, set) = params[i];
        proof {
            let next = params@.subrange(0, i + 1);
            assert(next.drop_last() =~= params@.subrange(0, i as int));
            assert(next.last() == params@[i as int]);
        }
        if set {
            res.push(p);
        }
        i = i + 1;
    }
    assert(params@.subrange(0, params@.len() as int) =~= params@);
    res
}

/// Which of the curve settings were given, as a flag or in the file:
/// `(damping, phase_threshold, linear_decel_ms, linear_stop_hires,
/// time_constant_ms, stop_threshold)`.
pub open spec fn given_curve_params<F>(cli: Args<F>, cfg: Config<F>) -> (bool, bool, bool, bool, bool, bool) {
    (
        first_of(cli.damping, in_scroll(cfg, |s: ScrollConfig<F>| s.damping)) is Some,
        first_of(cli.phase_threshold, in_scroll(cfg, |s: ScrollConfig<F>| s.phase_threshold)) is Some,
        first_of(cli.linear_decel_ms, in_scroll(cfg, |s: ScrollConfig<F>| s.linear_decel_ms)) is Some,
        first_of(cli.linear_stop_hires, in_scroll(cfg, |s: ScrollConfig<F>| s.linear_stop_hires)) is Some,
        first_of(cli.time_constant_ms, in_scroll(cfg, |s: ScrollConfig<F>| s.time_constant_ms)) is Some,
        first_of(cli.stop_threshold, in_scroll(cfg, |s: ScrollConfig<F>| s.stop_threshold)) is Some,
    )
}

/// The settings given that the curve does not use: the exponential curve uses
/// only the damping, the dual-phase curve does not use the time-constant
/// settings, the time-constant curve uses neither the damping nor the
/// deceleration-phase settings. An unknown curve gives no warning.
pub open spec fn unused_curve_params<F>(cli: Args<F>, cfg: Config<F>, curve: Seq<char>) -> Seq<CurveParam> {
    let (d, pt, ld, ls, tc, st) = given_curve_params(cli, cfg);
    match curve_named(curve) {
        DampingCurve::Expo => set_params(
            seq![
                (CurveParam::PhaseThreshold, pt),
                (CurveParam::LinearDecelMs, ld),
                (CurveParam::LinearStopHires, ls),
                (CurveParam::TimeConstantMs, tc),
                (CurveParam::StopThreshold, st),
            ],
        ),
        DampingCurve::Dual => set_params(
            seq![(CurveParam::TimeConstantMs, tc), (CurveParam::StopThreshold, st)],
        ),
        DampingCurve::Macos => set_params(
            seq![
                (CurveParam::Damping, d),
                (CurveParam::PhaseThreshold, pt),
                (CurveParam::LinearDecelMs, ld),
                (CurveParam::LinearStopHires, ls),
            ],
        ),
        DampingCurve::Unknown => Seq::empty(),
    }
}

/// The curve settings that were given but have no effect with the damping
/// curve in effect, in the order they are reported.
pub fn warn_unused_curve_params<F: Copy>(
    cli: &Args<F>,
    cfg: &Config<F>,
    resolved: &ResolvedArgs<F>,
) -> (res: Vec<CurveParam>)
    ensures
        res@ == unused_curve_params(*cli, *cfg, resolved.damping_curve@),
{
    let (s_damping, s_phase, s_decel, s_stop_hires, s_time_constant, s_stop_threshold) =
        match &cfg.scroll {
        Some(c) => (
            is_set(None::<F>, c.damping),
            is_set(None::<F>, c.phase_threshold),
            is_set(None::<i32>, c.linear_decel_ms),
            is_set(None::<i32>, c.linear_stop_hires),
            is_set(None::<F>, c.time_constant_ms),
            is_set(None::<F>, c.stop_threshold),
        ),
        None => (false, false, false, false, false, false),
    };
    let damping = cli.damping.is_some() || s_damping;
    let phase_threshold = cli.phase_threshold.is_some() || s_phase;
    let linear_decel_ms = cli.linear_decel_ms.is_some() || s_decel;
    let linear_stop_hires = cli.linear_stop_hires.is_some() || s_stop_hires;
    let time_constant_ms = cli.time_constant_ms.is_some() || s_time_constant;
    let stop_threshold = cli.stop_threshold.is_some() || s_stop_threshold;
    match curve_kind(resolved.damping_curve.as_str()) {
        DampingCurve::Expo => {
            let params = [
                (CurveParam::PhaseThreshold, phase_threshold),
                (CurveParam::LinearDecelMs, linear_decel_ms),
                (CurveParam::LinearStopHires, linear_stop_hires),
                (CurveParam::TimeConstantMs, time_constant_ms),
                (CurveParam::StopThreshold, stop_threshold),
            ];
            let r = warn_unused(&params);
            assert(params@ =~= seq![
                (CurveParam::PhaseThreshold, phase_threshold),
                (CurveParam::LinearDecelMs, linear_decel_ms),
                (CurveParam::LinearStopHires, linear_stop_hires),
                (CurveParam::TimeConstantMs, time_constant_ms),
                (CurveParam::StopThreshold, stop_threshold),
            ]);
            r
        },
        DampingCurve::Dual => {
            let params = [
                (CurveParam::TimeConstantMs, time_constant_ms),
                (CurveParam::StopThreshold, stop_threshold),
            ];
            let r = warn_unused(&params);
            assert(params@ =~= seq![
                (CurveParam::TimeConstantMs, time_constant_ms),
                (CurveParam::StopThreshold, stop_threshold),
            ]);
            r
        },
        DampingCurve::Macos => {
            let params = [
                (CurveParam::Damping, damping),
                (CurveParam::PhaseThreshold, phase_threshold),
                (CurveParam::LinearDecelMs, linear_decel_ms),
                (CurveParam::LinearStopHires, linear_stop_hires),
            ];
            let r = warn_unused(&params);
            assert(params@ =~= seq![
                (CurveParam::Damping, damping),
                (CurveParam::PhaseThreshold, phase_threshold),
                (CurveParam::LinearDecelMs, linear_decel_ms),
                (CurveParam::LinearStopHires, linear_stop_hires),
            ]);
            r
        },
        DampingCurve::Unknown => Vec::new(),
    }
}

/// Layering: a flag that is given wins; else a value in the file wins; else
/// the built-in default holds.
pub proof fn law_flag_beats_file_beats_default<T>(flag: T, file: Option<T>, default: T)
    ensures
        layered(Some(flag), file, default) == flag,
        forall|v: T| layered(None, Some(v), default) == v,
        layered(None::<T>, None::<T>, default) == default,
{
}

/// A mode given as a flag is the mode in effect, whatever the file says;
/// without one, a file that enables nothing explicitly gives scroll mode.
pub proof fn law_mode_layering<F>(cli: Args<F>, cfg: Config<F>)
    ensures
        cli.mode matches Some(m) ==> resolved_mode(cli, cfg) == m@,
        (cli.mode is None && cfg.scroll is None && cfg.pointer is None) ==> resolved_mode(cli, cfg)
            == "scroll"@,
{
}

/// `--natural-scroll` beats `--no-natural-scroll`, which beats the file, which
/// beats the default (off).
pub proof fn law_natural_scroll_layering<F>(cli: Args<F>, cfg: Config<F>)
    ensures
        cli.natural_scroll ==> resolved_natural_scroll(cli, cfg),
        !cli.natural_scroll && cli.no_natural_scroll ==> !resolved_natural_scroll(cli, cfg),
        !cli.natural_scroll && !cli.no_natural_scroll ==> resolved_natural_scroll(cli, cfg)
            == match cfg.scroll {
            Some(s) => match s.natural_scroll {
                Some(b) => b,
                None => false,
            },
            None => false,
        },
{
}

/// Without a mode flag, scrolling counts as on unless the file disables it
/// (`[scroll] enabled = false`), and the pointer as off unless the file
/// enables it (`[pointer] enabled = true`): both on give "both", only the
/// pointer gives "pointer", and no pointer gives "scroll".
pub proof fn law_mode_from_file<F>(cli: Args<F>, cfg: Config<F>)
    requires
        cli.mode is None,
    ensures
        ({
            let scroll_on = in_scroll(cfg, |s: ScrollConfig<F>| s.enabled) != Some(false);
            let pointer_on = in_pointer(cfg, |p: PointerConfig<F>| p.enabled) == Some(true);
            &&& (scroll_on && pointer_on) ==> resolved_mode(cli, cfg) == "both"@
            &&& (!scroll_on && pointer_on) ==> resolved_mode(cli, cfg) == "pointer"@
            &&& !pointer_on ==> resolved_mode(cli, cfg) == "scroll"@
        }),
        (in_scroll(cfg, |s: ScrollConfig<F>| s.enabled) is None && in_pointer(
            cfg,
            |p: PointerConfig<F>| p.enabled,
        ) == Some(true)) ==> resolved_mode(cli, cfg) == "both"@,
{
}

/// Every curve setting that is reported as having no effect was given.
pub proof fn law_warnings_only_for_given_params<F>(cli: Args<F>, cfg: Config<F>, curve: Seq<char>)
    ensures
        ({
            let (d, pt, ld, ls, tc, st) = given_curve_params(cli, cfg);
            let w = unused_curve_params(cli, cfg, curve);
            forall|i: int| 0 <= i < w.len() ==> match #[trigger] w[i] {
                CurveParam::Damping => d,
                CurveParam::PhaseThreshold => pt,
                CurveParam::LinearDecelMs => ld,
                CurveParam::LinearStopHires => ls,
                CurveParam::TimeConstantMs => tc,
                CurveParam::StopThreshold => st,
            }
        }),
{
    let (d, pt, ld, ls, tc, st) = given_curve_params(cli, cfg);
    let w = unused_curve_params(cli, cfg, curve);
    reveal_with_fuel(set_params, 6);
}

} // verus!
