//! The sub-commands and source selectors of `vcgencmd`, their literal tokens,
//! and the argument vector of one run.
use vstd::prelude::*;

verus! {

/// The clock domains that `measure_clock` can report on.
#[derive(Debug, Clone, Copy, PartialEq, Eq)]
pub enum ClockSrc {
    Arm,
    Core,
    Dpi,
    Emmc,
    H264,
    Hdmi,
    Isp,
    Pixel,
    Pwm,
    Uart,
    V3d,
    Vec,
}

/// The voltage rails that `measure_volts` can report on.
#[derive(Debug, Clone, Copy, PartialEq, Eq)]
pub enum VoltSrc {
    Core,
    SdramC,
    SdramI,
    SdramP,
}

/// The memory pools that `get_mem` can report on.
#[derive(Debug, Clone, Copy, PartialEq, Eq)]
pub enum MemSrc {
    Arm,
    Gpu,
}

/// A source selector: one clock domain, voltage rail or memory pool.
#[derive(Debug, Clone, Copy, PartialEq, Eq)]
pub enum Src {
    Clock(ClockSrc),
    Mem(MemSrc),
    Volt(VoltSrc),
}

/// The sub-commands of `vcgencmd` that this library speaks.
#[derive(Debug, Clone, Copy, PartialEq, Eq)]
pub enum Cmd {
    GetMem,
    GetThrottled,
    MeasureClock,
    MeasureTemp,
    MeasureVolts,
}

/// The literal token that `vcgencmd` expects for a sub-command.
pub open spec fn command_token(cmd: Cmd) -> Seq<char> {
    match cmd {
        Cmd::GetMem => "get_mem"@,
        Cmd::GetThrottled => "get_throttled"@,
        Cmd::MeasureClock => "measure_clock"@,
        Cmd::MeasureTemp => "measure_temp"@,
        Cmd::MeasureVolts => "measure_volts"@,
    }
}

/// The literal token that `vcgencmd` expects for a source selector.
pub open spec fn src_token(src: Src) -> Seq<char> {
    match src {
        Src::Clock(ClockSrc::Arm) => "arm"@,
        Src::Clock(ClockSrc::Core) => "core"@,
        Src::Clock(ClockSrc::Dpi) => "dpi"@,
        Src::Clock(ClockSrc::Emmc) => "emmc"@,
        Src::Clock(ClockSrc::H264) => "h264"@,
        Src::Clock(ClockSrc::Hdmi) => "hdmi"@,
        Src::Clock(ClockSrc::Isp) => "isp"@,
        Src::Clock(ClockSrc::Pixel) => "pixel"@,
        Src::Clock(ClockSrc::Pwm) => "pwm"@,
        Src::Clock(ClockSrc::Uart) => "uart"@,
        Src::Clock(ClockSrc::V3d) => "v3d"@,
        Src::Clock(ClockSrc::Vec) => "vec"@,
        Src::Mem(MemSrc::Arm) => "arm"@,
        Src::Mem(MemSrc::Gpu) => "gpu"@,
        Src::Volt(VoltSrc::Core) => "core"@,
        Src::Volt(VoltSrc::SdramC) => "sdram_c"@,
        Src::Volt(VoltSrc::SdramI) => "sdram_i"@,
        Src::Volt(VoltSrc::SdramP) => "sdram_p"@,
    }
}

/// Whether two selectors belong to the same family (clock, memory or voltage).
pub open spec fn same_family(a: Src, b: Src) -> bool {
    (a is Clock && b is Clock) || (a is Mem && b is Mem) || (a is Volt && b is Volt)
}

/// The sub-command token for `cmd`.
pub fn resolve_command(cmd: Cmd) -> (r: String)
    ensures
        r@ == command_token(cmd),
{
    match cmd {
        Cmd::GetMem => "get_mem",
        Cmd::GetThrottled => "get_throttled",
        Cmd::MeasureClock => "measure_clock",
        Cmd::MeasureTemp => "measure_temp",
        Cmd::MeasureVolts => "measure_volts",
    }.to_owned()
}

/// The source token for `src`, or none when no selector is given.
pub fn resolve_src(src: Option<Src>) -> (r: Option<String>)
    ensures
        src is None ==> r is None,
        src is Some ==> r is Some && r->0@ == src_token(src->0),
{
    let token = match src {
        None => {
            return None;
        },
        Some(Src::Clock(ClockSrc::Arm)) => "arm",
        Some(Src::Clock(ClockSrc::Core)) => "core",
        Some(Src::Clock(ClockSrc::Dpi)) => "dpi",
        Some(Src::Clock(ClockSrc::Emmc)) => "emmc",
        Some(Src::Clock(ClockSrc::H264)) => "h264",
        Some(Src::Clock(ClockSrc::Hdmi)) => "hdmi",
        Some(Src::Clock(ClockSrc::Isp)) => "isp",
        Some(Src::Clock(ClockSrc::Pixel)) => "pixel",
        Some(Src::Clock(ClockSrc::Pwm)) => "pwm",
        Some(Src::Clock(ClockSrc::Uart)) => "uart",
        Some(Src::Clock(ClockSrc::V3d)) => "v3d",
        Some(Src::Clock(ClockSrc::Vec)) => "vec",
        Some(Src::Mem(MemSrc::Arm)) => "arm",
        Some(Src::Mem(MemSrc::Gpu)) => "gpu",
        Some(Src::Volt(VoltSrc::Core)) => "core",
        Some(Src::Volt(VoltSrc::SdramC)) => "sdram_c",
        Some(Src::Volt(VoltSrc::SdramI)) => "sdram_i",
        Some(Src::Volt(VoltSrc::SdramP)) => "sdram_p",
    };
    Some(token.to_owned())
}

/// Distinct sub-commands have distinct tokens.
pub proof fn lemma_command_tokens_distinct(a: Cmd, b: Cmd)
    requires
        command_token(a) == command_token(b),
    ensures
        a == b,
{
    reveal_strlit("get_mem");
    reveal_strlit("get_throttled");
    reveal_strlit("measure_clock");
    reveal_strlit("measure_temp");
    reveal_strlit("measure_volts");
    let (ta, tb) = (command_token(a), command_token(b));
    assert(ta[0] == tb[0]);
    if ta.len() == 13 {
        assert(ta[8] == tb[8]);
    }
}

/// Within one family, distinct selectors have distinct tokens.
pub proof fn lemma_src_tokens_distinct(a: Src, b: Src)
    requires
        same_family(a, b),
        src_token(a) == src_token(b),
    ensures
        a == b,
{
    reveal_strlit("arm");
    reveal_strlit("core");
    reveal_strlit("dpi");
    reveal_strlit("emmc");
    reveal_strlit("h264");
    reveal_strlit("hdmi");
    reveal_strlit("isp");
    reveal_strlit("pixel");
    reveal_strlit("pwm");
    reveal_strlit("uart");
    reveal_strlit("v3d");
    reveal_strlit("vec");
    reveal_strlit("gpu");
    reveal_strlit("sdram_c");
    reveal_strlit("sdram_i");
    reveal_strlit("sdram_p");
    let (ta, tb) = (src_token(a), src_token(b));
    assert(ta[0] == tb[0] && ta[1] == tb[1]);
    if ta.len() == 7 {
        assert(ta[6] == tb[6]);
    }
}

/// The program that answers the queries, looked up on the search path.
pub open spec fn tool_name() -> Seq<char> {
    "vcgencmd"@
}

/// The wrapper through which an elevated run starts the tool.
pub open spec fn elevation_wrapper() -> Seq<char> {
    "sudo"@
}

/// The argument vector of one run: the program first, then its arguments.
pub open spec fn command_line_spec(elevated: bool, cmd: Cmd, src: Option<Src>) -> Seq<Seq<char>> {
    let wrapper = if elevated {
        seq![elevation_wrapper()]
    } else {
        Seq::empty()
    };
    let selector = match src {
        Some(s) => seq![src_token(s)],
        None => Seq::empty(),
    };
    wrapper + seq![tool_name(), command_token(cmd)] + selector
}

/// The argument vector that runs `cmd` on `src`, through the elevation wrapper
/// where `elevated` holds.
pub fn command_line(elevated: bool, cmd: Cmd, src: Option<Src>) -> (r: Vec<String>)
    ensures
        r@.map_values(|a: String| a@) == command_line_spec(elevated, cmd, src),
{
    let mut argv: Vec<String> = Vec::new();
    if elevated {
        argv.push("sudo".to_owned());
    }
    argv.push("vcgencmd".to_owned());
    argv.push(resolve_command(cmd));
    if let Some(token) = resolve_src(src) {
        argv.push(token);
    }
    assert(argv@.map_values(|a: String| a@) =~= command_line_spec(elevated, cmd, src));
    argv
}

} // verus!
