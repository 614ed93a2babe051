//! The configuration record and its enumerated choices.

use vstd::prelude::*;
use crate::strutil::str_eq;

verus! {

/// The firmware variant the emulator should boot.
#[derive(Debug, Clone, Copy, PartialEq, Eq, Structural)]
#[allow(non_camel_case_types)]
pub enum FirmwareVer {
    quark103,
    quark,
    console8,
    electronhal,
}

/// The rendering backend the emulator should use.
#[derive(Debug, Clone, Copy, PartialEq, Eq, Structural)]
pub enum Renderer {
    Software,
    Accelerated,
}

/// The validated configuration produced by a successful parse.
#[derive(Debug, Clone, PartialEq, Eq)]
pub struct AppArgs {
    pub sdcard: Option<String>,
    pub debugger: bool,
    pub breakpoint: Option<String>,
    pub unlimited_cpu: bool,
    pub fullscreen: bool,
    pub zero: bool,
    pub mos_bin: Option<String>,
    pub vdp_dll: Option<String>,
    pub firmware: FirmwareVer,
    pub perfect_scale: Option<u32>,
    pub renderer: Renderer,
}

/// The mathematical model of an `AppArgs`: the same record with every
/// string replaced by its character sequence.
#[verifier::ext_equal]
pub struct ConfigModel {
    pub sdcard: Option<Seq<char>>,
    pub debugger: bool,
    pub breakpoint: Option<Seq<char>>,
    pub unlimited_cpu: bool,
    pub fullscreen: bool,
    pub zero: bool,
    pub mos_bin: Option<Seq<char>>,
    pub vdp_dll: Option<Seq<char>>,
    pub firmware: FirmwareVer,
    pub perfect_scale: Option<u32>,
    pub renderer: Renderer,
}

impl View for AppArgs {
    type V = ConfigModel;

    open spec fn view(&self) -> ConfigModel {
        ConfigModel {
            sdcard: self.sdcard.deep_view(),
            debugger: self.debugger,
            breakpoint: self.breakpoint.deep_view(),
            unlimited_cpu: self.unlimited_cpu,
            fullscreen: self.fullscreen,
            zero: self.zero,
            mos_bin: self.mos_bin.deep_view(),
            vdp_dll: self.vdp_dll.deep_view(),
            firmware: self.firmware,
            perfect_scale: self.perfect_scale,
            renderer: self.renderer,
        }
    }
}

/// The all-defaults configuration: every switch off, every optional value
/// absent, `console8` firmware, accelerated renderer.
pub open spec fn spec_default_config() -> ConfigModel {
    ConfigModel {
        sdcard: None,
        debugger: false,
        breakpoint: None,
        unlimited_cpu: false,
        fullscreen: false,
        zero: false,
        mos_bin: None,
        vdp_dll: None,
        firmware: FirmwareVer::console8,
        perfect_scale: None,
        renderer: Renderer::Accelerated,
    }
}

/// Builds the all-defaults configuration.
pub fn default_app_args() -> (r: AppArgs)
    ensures
        r@ == spec_default_config(),
{
    let r = AppArgs {
        sdcard: None,
        debugger: false,
        breakpoint: None,
        unlimited_cpu: false,
        fullscreen: false,
        zero: false,
        mos_bin: None,
        vdp_dll: None,
        firmware: FirmwareVer::console8,
        perfect_scale: None,
        renderer: Renderer::Accelerated,
    };
    assert(r@ =~= spec_default_config());
    r
}

/// The firmware variant a `--firmware` value names, if any.
pub open spec fn spec_firmware_from(s: Seq<char>) -> Option<FirmwareVer> {
    if s == "1.03"@ {
        Some(FirmwareVer::quark103)
    } else if s == "quark"@ {
        Some(FirmwareVer::quark)
    } else if s == "console8"@ {
        Some(FirmwareVer::console8)
    } else if s == "electron"@ {
        Some(FirmwareVer::electronhal)
    } else {
        None
    }
}

/// Maps a `--firmware` value to its variant; `None` exactly on the values
/// outside the valid set.
pub fn firmware_from_str(s: &str) -> (r: Option<FirmwareVer>)
    ensures
        r == spec_firmware_from(s@),
{
    if str_eq(s, "1.03") {
        Some(FirmwareVer::quark103)
    } else if str_eq(s, "quark") {
        Some(FirmwareVer::quark)
    } else if str_eq(s, "console8") {
        Some(FirmwareVer::console8)
    } else if str_eq(s, "electron") {
        Some(FirmwareVer::electronhal)
    } else {
        None
    }
}

/// The renderer a `--renderer` value names, if any.
pub open spec fn spec_renderer_from(s: Seq<char>) -> Option<Renderer> {
    if s == "hw"@ {
        Some(Renderer::Accelerated)
    } else if s == "sw"@ {
        Some(Renderer::Software)
    } else {
        None
    }
}

/// Maps a `--renderer` value to its variant; `None` exactly on the values
/// outside the valid set.
pub fn renderer_from_str(s: &str) -> (r: Option<Renderer>)
    ensures
        r == spec_renderer_from(s@),
{
    if str_eq(s, "hw") {
        Some(Renderer::Accelerated)
    } else if str_eq(s, "sw") {
        Some(Renderer::Software)
    } else {
        None
    }
}

/// The valid values of `--firmware`, for diagnostics.
pub fn firmware_choices() -> (r: &'static str)
    ensures
        r@ == "1.03, quark, console8, electron"@,
{
    "1.03, quark, console8, electron"
}

/// The valid values of `--renderer`, for diagnostics.
pub fn renderer_choices() -> (r: &'static str)
    ensures
        r@ == "hw, sw"@,
{
    "hw, sw"
}

} // verus!
