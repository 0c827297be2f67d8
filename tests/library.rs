use subprocess::PopenError;
use vcgencmd::{
    command_line, get_mem, get_throttled, interpret_bit_pattern, measure_clock, resolve_command,
    resolve_src, ClockSrc, Cmd, ExecutionError, MemSrc, Src, ThrottledStatus, VoltSrc,
};

#[test]
fn test_resolve_src() {
    assert_eq!(
        Some(String::from("arm")),
        resolve_src(Some(Src::Clock(ClockSrc::Arm)))
    );

    assert_eq!(None, resolve_src(None));
}

#[test]
fn test_resolve_command() {
    assert_eq!("measure_temp", resolve_command(Cmd::MeasureTemp));
    assert_eq!("measure_clock", resolve_command(Cmd::MeasureClock));
}

#[test]
fn test_throttled_status_methods() {
    let throttled_status = ThrottledStatus::new(0b111100000000000001010);
    assert_eq!(
        throttled_status,
        ThrottledStatus {
            arm_frequency_cap_occurred: true,
            arm_frequency_capped: true,
            currently_throttled: false,
            soft_temp_limit_active: true,
            soft_temp_limit_occurred: true,
            throttling_occurred: true,
            under_voltage: false,
            under_voltage_occurred: false,
        }
    )
}

#[test]
fn test_interpret_bit_pattern() {
    let throttled_info = interpret_bit_pattern(0b111100000000000001010);
    assert_eq!(
        throttled_info,
        ThrottledStatus {
            arm_frequency_cap_occurred: true,
            arm_frequency_capped: true,
            currently_throttled: false,
            soft_temp_limit_active: true,
            soft_temp_limit_occurred: true,
            throttling_occurred: true,
            under_voltage: false,
            under_voltage_occurred: false,
        }
    );

    let throttled_info2 = interpret_bit_pattern(0b111100000000000001111);
    assert_eq!(
        throttled_info2,
        ThrottledStatus {
            arm_frequency_cap_occurred: true,
            arm_frequency_capped: true,
            currently_throttled: true,
            soft_temp_limit_active: true,
            soft_temp_limit_occurred: true,
            throttling_occurred: true,
            under_voltage: true,
            under_voltage_occurred: false,
        }
    )
}

#[test]
fn test_get_mem() {
    let output = get_mem(Ok(String::from("arm=448M\n")));
    assert_eq!(output.is_ok(), true);
    assert_eq!(output.unwrap(), 448);
}

#[test]
fn test_measure_frequency() {
    let output = get_mem(Ok(String::from("gpu=76M\n")));
    assert_eq!(output.is_ok(), true);
}

#[test]
fn test_measure_clock() {
    let output = measure_clock(Ok(String::from("frequency(48)=600000000\n"))).unwrap();
    assert_eq!(output, 600000000);
}

#[test]
fn get_throttled_reads_hex_word() {
    let word = get_throttled(Ok(String::from("throttled=0x50005\n"))).unwrap();
    assert_eq!(word, 0x50005);
    let status = ThrottledStatus::new(word);
    assert!(status.under_voltage && status.currently_throttled);
    assert!(status.under_voltage_occurred && status.arm_frequency_cap_occurred);
    assert!(!status.arm_frequency_capped && !status.soft_temp_limit_active);
    assert!(!status.throttling_occurred && !status.soft_temp_limit_occurred);
}

#[test]
fn launch_failure_is_passed_on() {
    let failed = || Err(PopenError::LogicError("no such program"));
    assert!(matches!(measure_clock(failed()), Err(ExecutionError::Popen(_))));
    assert!(matches!(get_mem(failed()), Err(ExecutionError::Popen(_))));
    assert!(matches!(get_throttled(failed()), Err(ExecutionError::Popen(_))));
}

#[test]
fn malformed_runs_are_format_errors() {
    assert!(matches!(measure_clock(Ok(String::from("error"))), Err(ExecutionError::Format)));
    assert!(matches!(get_mem(Ok(String::new())), Err(ExecutionError::Format)));
    assert!(matches!(get_throttled(Ok(String::from("x"))), Err(ExecutionError::Format)));
    assert!(matches!(get_mem(Ok(String::from("arm=lots"))), Err(ExecutionError::ParseInt(_))));
}

fn only(field: &str) -> ThrottledStatus {
    ThrottledStatus {
        under_voltage: field == "under_voltage",
        arm_frequency_capped: field == "arm_frequency_capped",
        currently_throttled: field == "currently_throttled",
        soft_temp_limit_active: field == "soft_temp_limit_active",
        under_voltage_occurred: field == "under_voltage_occurred",
        throttling_occurred: field == "throttling_occurred",
        arm_frequency_cap_occurred: field == "arm_frequency_cap_occurred",
        soft_temp_limit_occurred: field == "soft_temp_limit_occurred",
    }
}

#[test]
fn each_bit_raises_one_flag() {
    let table = [
        (0, "under_voltage"),
        (1, "arm_frequency_capped"),
        (2, "currently_throttled"),
        (3, "soft_temp_limit_active"),
        (16, "under_voltage_occurred"),
        (17, "throttling_occurred"),
        (18, "arm_frequency_cap_occurred"),
        (19, "soft_temp_limit_occurred"),
    ];
    for (bit, field) in table {
        assert_eq!(interpret_bit_pattern(1isize << bit), only(field));
    }
}

#[test]
fn all_meaningful_bits_raise_all_flags() {
    let all = interpret_bit_pattern(0b1111_0000_0000_0000_1111);
    assert!(all.under_voltage && all.arm_frequency_capped);
    assert!(all.currently_throttled && all.soft_temp_limit_active);
    assert!(all.under_voltage_occurred && all.throttling_occurred);
    assert!(all.arm_frequency_cap_occurred && all.soft_temp_limit_occurred);
}

#[test]
fn zero_word_raises_no_flag() {
    assert_eq!(interpret_bit_pattern(0), ThrottledStatus::default());
    assert_eq!(ThrottledStatus::new(0), interpret_bit_pattern(0));
}

#[test]
fn reserved_bits_are_ignored() {
    let reserved: isize = !0b1111_0000_0000_0000_1111;
    assert_eq!(interpret_bit_pattern(reserved), ThrottledStatus::default());
    assert_eq!(interpret_bit_pattern(-1), interpret_bit_pattern(0b1111_0000_0000_0000_1111));
}

#[test]
fn every_command_token() {
    assert_eq!("get_mem", resolve_command(Cmd::GetMem));
    assert_eq!("get_throttled", resolve_command(Cmd::GetThrottled));
    assert_eq!("measure_clock", resolve_command(Cmd::MeasureClock));
    assert_eq!("measure_temp", resolve_command(Cmd::MeasureTemp));
    assert_eq!("measure_volts", resolve_command(Cmd::MeasureVolts));
}

#[test]
fn every_source_token() {
    let table = [
        (Src::Clock(ClockSrc::Arm), "arm"),
        (Src::Clock(ClockSrc::Core), "core"),
        (Src::Clock(ClockSrc::Dpi), "dpi"),
        (Src::Clock(ClockSrc::Emmc), "emmc"),
        (Src::Clock(ClockSrc::H264), "h264"),
        (Src::Clock(ClockSrc::Hdmi), "hdmi"),
        (Src::Clock(ClockSrc::Isp), "isp"),
        (Src::Clock(ClockSrc::Pixel), "pixel"),
        (Src::Clock(ClockSrc::Pwm), "pwm"),
        (Src::Clock(ClockSrc::Uart), "uart"),
        (Src::Clock(ClockSrc::V3d), "v3d"),
        (Src::Clock(ClockSrc::Vec), "vec"),
        (Src::Mem(MemSrc::Arm), "arm"),
        (Src::Mem(MemSrc::Gpu), "gpu"),
        (Src::Volt(VoltSrc::Core), "core"),
        (Src::Volt(VoltSrc::SdramC), "sdram_c"),
        (Src::Volt(VoltSrc::SdramI), "sdram_i"),
        (Src::Volt(VoltSrc::SdramP), "sdram_p"),
    ];
    for (src, token) in table {
        assert_eq!(Some(String::from(token)), resolve_src(Some(src)));
    }
}

#[test]
fn argument_vectors() {
    assert_eq!(
        command_line(false, Cmd::MeasureClock, Some(Src::Clock(ClockSrc::Core))),
        vec!["vcgencmd", "measure_clock", "core"]
    );
    assert_eq!(
        command_line(true, Cmd::GetThrottled, None),
        vec!["sudo", "vcgencmd", "get_throttled"]
    );
    assert_eq!(
        command_line(false, Cmd::GetMem, Some(Src::Mem(MemSrc::Gpu))),
        vec!["vcgencmd", "get_mem", "gpu"]
    );
}
