use agon_args::config::AppArgs;
use agon_args::config::FirmwareVer;
use agon_args::config::Renderer;
use agon_args::config::default_app_args;
use agon_args::config::firmware_choices;
use agon_args::config::firmware_from_str;
use agon_args::config::renderer_choices;
use agon_args::config::renderer_from_str;
use agon_args::numeral::parse_u32_decimal;
use agon_args::parser::ParseOutcome;
use agon_args::parser::ValueFlag;
use agon_args::parser::parse_args;
use agon_args::strutil::str_eq;
use agon_args::usage::flag_name;
use agon_args::usage::help_text;

fn argv(tokens: &[&str]) -> Vec<String> {
    tokens.iter().map(|t| t.to_string()).collect()
}

fn expect_success(outcome: ParseOutcome) -> (AppArgs, Vec<String>) {
    match outcome {
        ParseOutcome::Success { config, unused } => (config, unused),
        other => panic!("expected a successful parse, got {:?}", other),
    }
}

#[test]
fn empty_vector_gives_all_defaults() {
    let (config, unused) = expect_success(parse_args(&argv(&[])));
    assert_eq!(config, default_app_args());
    assert!(unused.is_empty());
    assert_eq!(config.sdcard, None);
    assert!(!config.debugger);
    assert_eq!(config.breakpoint, None);
    assert!(!config.unlimited_cpu);
    assert!(!config.fullscreen);
    assert!(!config.zero);
    assert_eq!(config.mos_bin, None);
    assert_eq!(config.vdp_dll, None);
    assert_eq!(config.firmware, FirmwareVer::console8);
    assert_eq!(config.perfect_scale, None);
    assert_eq!(config.renderer, Renderer::Accelerated);
}

#[test]
fn unrecognized_tokens_alone_give_defaults() {
    let (config, unused) = expect_success(parse_args(&argv(&["foo", "bar"])));
    assert_eq!(config, default_app_args());
    assert_eq!(unused, argv(&["foo", "bar"]));
}

#[test]
fn switches_short_forms() {
    let (config, unused) = expect_success(parse_args(&argv(&["-d", "-z", "-f", "-u"])));
    assert!(config.debugger);
    assert!(config.zero);
    assert!(config.fullscreen);
    assert!(config.unlimited_cpu);
    assert!(unused.is_empty());
}

#[test]
fn switches_long_forms() {
    let (config, unused) = expect_success(
        parse_args(&argv(&["--debugger", "--zero", "--fullscreen", "--unlimited-cpu"])),
    );
    assert!(config.debugger);
    assert!(config.zero);
    assert!(config.fullscreen);
    assert!(config.unlimited_cpu);
    assert!(unused.is_empty());
}

#[test]
fn order_does_not_matter_for_switches() {
    let (c1, _) = expect_success(parse_args(&argv(&["--zero", "--debugger"])));
    let (c2, _) = expect_success(parse_args(&argv(&["--debugger", "--zero"])));
    assert_eq!(c1, c2);
}

#[test]
fn value_options_take_the_next_token() {
    let (config, unused) = expect_success(parse_args(&argv(&[
        "--sdcard", "card.img", "--breakpoint", "40000", "--mos", "MOS.bin", "--vdp", "vdp.so",
    ])));
    assert_eq!(config.sdcard, Some("card.img".to_string()));
    assert_eq!(config.breakpoint, Some("40000".to_string()));
    assert_eq!(config.mos_bin, Some("MOS.bin".to_string()));
    assert_eq!(config.vdp_dll, Some("vdp.so".to_string()));
    assert!(unused.is_empty());
}

#[test]
fn breakpoint_short_form() {
    let (config, _) = expect_success(parse_args(&argv(&["-b", "40000"])));
    assert_eq!(config.breakpoint, Some("40000".to_string()));
}

#[test]
fn missing_value_is_malformed() {
    assert_eq!(
        parse_args(&argv(&["--sdcard"])),
        ParseOutcome::MalformedValue { flag: ValueFlag::Sdcard },
    );
    assert_eq!(
        parse_args(&argv(&["-d", "--scale"])),
        ParseOutcome::MalformedValue { flag: ValueFlag::Scale },
    );
}

#[test]
fn firmware_values_map_to_variants() {
    let (c, _) = expect_success(parse_args(&argv(&["--firmware", "1.03"])));
    assert_eq!(c.firmware, FirmwareVer::quark103);
    let (c, _) = expect_success(parse_args(&argv(&["--firmware", "quark"])));
    assert_eq!(c.firmware, FirmwareVer::quark);
    let (c, _) = expect_success(parse_args(&argv(&["--firmware", "console8"])));
    assert_eq!(c.firmware, FirmwareVer::console8);
    let (c, _) = expect_success(parse_args(&argv(&["--firmware", "electron"])));
    assert_eq!(c.firmware, FirmwareVer::electronhal);
}

#[test]
fn firmware_unknown_value_is_an_invalid_choice() {
    assert_eq!(
        parse_args(&argv(&["--firmware", "bogus"])),
        ParseOutcome::InvalidChoice { flag: ValueFlag::Firmware, value: "bogus".to_string() },
    );
}

#[test]
fn firmware_mapping_table() {
    assert_eq!(firmware_from_str("1.03"), Some(FirmwareVer::quark103));
    assert_eq!(firmware_from_str("quark"), Some(FirmwareVer::quark));
    assert_eq!(firmware_from_str("console8"), Some(FirmwareVer::console8));
    assert_eq!(firmware_from_str("electron"), Some(FirmwareVer::electronhal));
    assert_eq!(firmware_from_str("bogus"), None);
    assert_eq!(firmware_from_str(""), None);
    assert_eq!(firmware_choices(), "1.03, quark, console8, electron");
}

#[test]
fn renderer_values_map_to_variants() {
    let (c, _) = expect_success(parse_args(&argv(&["--renderer", "hw"])));
    assert_eq!(c.renderer, Renderer::Accelerated);
    let (c, _) = expect_success(parse_args(&argv(&["--renderer", "sw"])));
    assert_eq!(c.renderer, Renderer::Software);
}

#[test]
fn renderer_unknown_value_is_an_invalid_choice() {
    assert_eq!(
        parse_args(&argv(&["--renderer", "xx"])),
        ParseOutcome::InvalidChoice { flag: ValueFlag::Renderer, value: "xx".to_string() },
    );
}

#[test]
fn renderer_mapping_table() {
    assert_eq!(renderer_from_str("hw"), Some(Renderer::Accelerated));
    assert_eq!(renderer_from_str("sw"), Some(Renderer::Software));
    assert_eq!(renderer_from_str("xx"), None);
    assert_eq!(renderer_choices(), "hw, sw");
}

#[test]
fn scale_numeric_value_is_kept() {
    let (config, _) = expect_success(parse_args(&argv(&["--scale", "200"])));
    assert_eq!(config.perfect_scale, Some(200));
}

#[test]
fn scale_non_numeric_value_is_malformed() {
    assert_eq!(
        parse_args(&argv(&["--scale", "abc"])),
        ParseOutcome::MalformedValue { flag: ValueFlag::Scale },
    );
}

#[test]
fn scale_overflowing_value_is_malformed() {
    assert_eq!(
        parse_args(&argv(&["--scale", "4294967296"])),
        ParseOutcome::MalformedValue { flag: ValueFlag::Scale },
    );
    let (config, _) = expect_success(parse_args(&argv(&["--scale", "4294967295"])));
    assert_eq!(config.perfect_scale, Some(u32::MAX));
}

#[test]
fn numeral_parsing_matches_std() {
    for s in ["0", "7", "200", "007", "+42", "4294967295", "4294967296", "99999999999999999999",
        "", "+", "-1", " 1", "1 ", "1.5", "0x10", "abc"] {
        assert_eq!(parse_u32_decimal(s), s.parse::<u32>().ok(), "numeral {:?}", s);
    }
}

#[test]
fn leftover_token_beside_valid_flags_still_succeeds() {
    let (config, unused) = expect_success(
        parse_args(&argv(&["--debugger", "extra-token", "--scale", "200"])),
    );
    assert!(config.debugger);
    assert_eq!(config.perfect_scale, Some(200));
    assert_eq!(unused, argv(&["extra-token"]));
}

#[test]
fn help_short_circuits_everything() {
    assert_eq!(parse_args(&argv(&["-h"])), ParseOutcome::HelpRequested);
    assert_eq!(parse_args(&argv(&["--help"])), ParseOutcome::HelpRequested);
    assert_eq!(
        parse_args(&argv(&["--firmware", "bogus", "--help", "--scale", "abc"])),
        ParseOutcome::HelpRequested,
    );
}

#[test]
fn parsing_twice_gives_identical_outcomes() {
    let tokens = argv(&["--firmware", "quark", "--scale", "200", "-z", "stray"]);
    let first = parse_args(&tokens);
    let second = parse_args(&tokens);
    assert_eq!(first, second);
}

#[test]
fn last_occurrence_of_a_value_option_wins() {
    let (config, unused) = expect_success(
        parse_args(&argv(&["--firmware", "quark", "--firmware", "electron"])),
    );
    assert_eq!(config.firmware, FirmwareVer::electronhal);
    assert!(unused.is_empty());
}

#[test]
fn usage_text_lists_every_option() {
    let text = help_text();
    assert!(text.starts_with("The Fabulous Agon Emulator!"));
    for flag in ["-d, --debugger", "-b, --breakpoint", "-z, --zero", "-f, --fullscreen",
        "-h, --help", "-u, --unlimited-cpu", "--firmware", "--sdcard", "--scale", "--mos",
        "--vdp", "--renderer"] {
        assert!(text.contains(flag), "usage text lacks {:?}", flag);
    }
}

#[test]
fn flag_names_for_diagnostics() {
    assert_eq!(flag_name(ValueFlag::Sdcard), "--sdcard");
    assert_eq!(flag_name(ValueFlag::Breakpoint), "--breakpoint");
    assert_eq!(flag_name(ValueFlag::Scale), "--scale");
    assert_eq!(flag_name(ValueFlag::Mos), "--mos");
    assert_eq!(flag_name(ValueFlag::Vdp), "--vdp");
    assert_eq!(flag_name(ValueFlag::Firmware), "--firmware");
    assert_eq!(flag_name(ValueFlag::Renderer), "--renderer");
}

#[test]
fn string_comparison_is_exact() {
    assert!(str_eq("", ""));
    assert!(str_eq("--scale", "--scale"));
    assert!(!str_eq("--scale", "--scal"));
    assert!(!str_eq("--scale", "--scalE"));
    assert!(str_eq("héllo", "héllo"));
    assert!(!str_eq("héllo", "hello"));
}
