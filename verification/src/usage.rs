//! The usage text and the option names, for the caller's diagnostics.

use vstd::prelude::*;
use crate::parser::ValueFlag;

verus! {

/// The full usage text, as a character sequence.
pub open spec fn spec_help_text() -> Seq<char> {
    "The Fabulous Agon Emulator!

USAGE:
  fab-agon-emulator [OPTIONS]

OPTIONS:
  -d, --debugger        Enable the eZ80 debugger
  -b, --breakpoint      Set a breakpoint before starting
  -z, --zero            Initialize ram with zeroes instead of random values
  -f, --fullscreen      Start in fullscreen mode
  -h, --help            Prints help information
  -u, --unlimited-cpu   Don't limit eZ80 CPU frequency
  --firmware 1.03       Use quark 1.03 firmware (default is console8)
  --firmware quark      Use quark 1.04 firmware (default is console8)
  --firmware electron   Use ElectronOS firmware (default is console8)
  --sdcard <path>       Sets the path of the emulated SDCard
  --scale <max-height>  Use perfect (integer) video mode scaling, up to
                        a maximum window height of <max-height>

ADVANCED:
  --mos PATH            Use a different MOS.bin firmware
  --vdp PATH            Use a different VDP dll/so firmware
  --renderer sw         Use software renderer
  --renderer hw         Use GL/D3D renderer (default)
"@
}

/// The full usage text, printed on `-h` or `--help`.
pub fn help_text() -> (r: &'static str)
    ensures
        r@ == spec_help_text(),
{
    "The Fabulous Agon Emulator!

USAGE:
  fab-agon-emulator [OPTIONS]

OPTIONS:
  -d, --debugger        Enable the eZ80 debugger
  -b, --breakpoint      Set a breakpoint before starting
  -z, --zero            Initialize ram with zeroes instead of random values
  -f, --fullscreen      Start in fullscreen mode
  -h, --help            Prints help information
  -u, --unlimited-cpu   Don't limit eZ80 CPU frequency
  --firmware 1.03       Use quark 1.03 firmware (default is console8)
  --firmware quark      Use quark 1.04 firmware (default is console8)
  --firmware electron   Use ElectronOS firmware (default is console8)
  --sdcard <path>       Sets the path of the emulated SDCard
  --scale <max-height>  Use perfect (integer) video mode scaling, up to
                        a maximum window height of <max-height>

ADVANCED:
  --mos PATH            Use a different MOS.bin firmware
  --vdp PATH            Use a different VDP dll/so firmware
  --renderer sw         Use software renderer
  --renderer hw         Use GL/D3D renderer (default)
"
}

/// The long name of a value-taking option.
pub open spec fn spec_flag_name(f: ValueFlag) -> Seq<char> {
    match f {
        ValueFlag::Sdcard => "--sdcard"@,
        ValueFlag::Breakpoint => "--breakpoint"@,
        ValueFlag::Scale => "--scale"@,
        ValueFlag::Mos => "--mos"@,
        ValueFlag::Vdp => "--vdp"@,
        ValueFlag::Firmware => "--firmware"@,
        ValueFlag::Renderer => "--renderer"@,
    }
}

/// The long name of a value-taking option, for error messages.
pub fn flag_name(f: ValueFlag) -> (r: &'static str)
    ensures
        r@ == spec_flag_name(f),
{
    match f {
        ValueFlag::Sdcard => "--sdcard",
        ValueFlag::Breakpoint => "--breakpoint",
        ValueFlag::Scale => "--scale",
        ValueFlag::Mos => "--mos",
        ValueFlag::Vdp => "--vdp",
        ValueFlag::Firmware => "--firmware",
        ValueFlag::Renderer => "--renderer",
    }
}

} // verus!
