//! The option grammar: recognition, validation and defaulting.
//!
//! `spec_parse` is the mathematical description of the grammar: a single
//! left-to-right pass over the argument vector.  A request for help
//! short-circuits everything else.  Switches set their field; value options
//! consume the following token, with the two enumerated options validated
//! against their closed value sets; unrecognized tokens are collected and
//! reported back to the caller, which may warn about them.  `parse_args` is
//! the executable parser, proved to return exactly what `spec_parse` says.

use vstd::prelude::*;
use crate::config::AppArgs;
use crate::config::ConfigModel;
use crate::config::spec_default_config;
use crate::config::spec_firmware_from;
use crate::config::spec_renderer_from;
use crate::config::default_app_args;
use crate::config::firmware_from_str;
use crate::config::renderer_from_str;
use crate::numeral::parse_u32_decimal;
use crate::numeral::spec_is_u32_numeral;
use crate::numeral::spec_u32_numeral_val;
use crate::strutil::str_eq;

verus! {

/// The value-taking options, named for diagnostics.
#[derive(Debug, Clone, Copy, PartialEq, Eq, Structural)]
pub enum ValueFlag {
    Sdcard,
    Breakpoint,
    Scale,
    Mos,
    Vdp,
    Firmware,
    Renderer,
}

/// What a parse produces.
///
/// `HelpRequested` and `InvalidChoice` ask the caller to print and exit
/// with status 0; `MalformedValue` is a hard parse error for the caller to
/// report; `Success` carries the configuration together with the tokens
/// that no option consumed, which are worth a warning but no failure.
#[derive(Debug, Clone, PartialEq, Eq)]
pub enum ParseOutcome {
    HelpRequested,
    InvalidChoice { flag: ValueFlag, value: String },
    MalformedValue { flag: ValueFlag },
    Success { config: AppArgs, unused: Vec<String> },
}

/// The mathematical model of a `ParseOutcome`.
#[verifier::ext_equal]
pub enum OutcomeModel {
    HelpRequested,
    InvalidChoice { flag: ValueFlag, value: Seq<char> },
    MalformedValue { flag: ValueFlag },
    Success { config: ConfigModel, unused: Seq<Seq<char>> },
}

impl View for ParseOutcome {
    type V = OutcomeModel;

    open spec fn view(&self) -> OutcomeModel {
        match self {
            ParseOutcome::HelpRequested => OutcomeModel::HelpRequested,
            ParseOutcome::InvalidChoice { flag, value } => OutcomeModel::InvalidChoice {
                flag: *flag,
                value: value@,
            },
            ParseOutcome::MalformedValue { flag } => OutcomeModel::MalformedValue { flag: *flag },
            ParseOutcome::Success { config, unused } => OutcomeModel::Success {
                config: config@,
                unused: unused.deep_view(),
            },
        }
    }
}

/// Whether a token asks for help.
pub open spec fn spec_is_help(a: Seq<char>) -> bool {
    a == "-h"@ || a == "--help"@
}

/// Whether any token of the vector asks for help.
pub open spec fn spec_wants_help(args: Seq<Seq<char>>) -> bool {
    exists|i: int| 0 <= i < args.len() && spec_is_help(args[i])
}

/// One pass over the remaining tokens, threading the configuration built
/// so far and the tokens left over so far.
pub open spec fn spec_scan(args: Seq<Seq<char>>, cfg: ConfigModel, unused: Seq<Seq<char>>) -> OutcomeModel
    decreases args.len(),
{
    if args.len() == 0 {
        OutcomeModel::Success { config: cfg, unused }
    } else {
        let a = args[0];
        if a == "-d"@ || a == "--debugger"@ {
            spec_scan(args.skip(1), ConfigModel { debugger: true, ..cfg }, unused)
        } else if a == "-u"@ || a == "--unlimited-cpu"@ {
            spec_scan(args.skip(1), ConfigModel { unlimited_cpu: true, ..cfg }, unused)
        } else if a == "-f"@ || a == "--fullscreen"@ {
            spec_scan(args.skip(1), ConfigModel { fullscreen: true, ..cfg }, unused)
        } else if a == "-z"@ || a == "--zero"@ {
            spec_scan(args.skip(1), ConfigModel { zero: true, ..cfg }, unused)
        } else if a == "--sdcard"@ {
            if args.len() < 2 {
                OutcomeModel::MalformedValue { flag: ValueFlag::Sdcard }
            } else {
                spec_scan(args.skip(2), ConfigModel { sdcard: Some(args[1]), ..cfg }, unused)
            }
        } else if a == "-b"@ || a == "--breakpoint"@ {
            if args.len() < 2 {
                OutcomeModel::MalformedValue { flag: ValueFlag::Breakpoint }
            } else {
                spec_scan(args.skip(2), ConfigModel { breakpoint: Some(args[1]), ..cfg }, unused)
            }
        } else if a == "--scale"@ {
            if args.len() < 2 {
                OutcomeModel::MalformedValue { flag: ValueFlag::Scale }
            } else if spec_is_u32_numeral(args[1]) {
                spec_scan(
                    args.skip(2),
                    ConfigModel { perfect_scale: Some(spec_u32_numeral_val(args[1]) as u32), ..cfg },
                    unused,
                )
            } else {
                OutcomeModel::MalformedValue { flag: ValueFlag::Scale }
            }
        } else if a == "--mos"@ {
            if args.len() < 2 {
                OutcomeModel::MalformedValue { flag: ValueFlag::Mos }
            } else {
                spec_scan(args.skip(2), ConfigModel { mos_bin: Some(args[1]), ..cfg }, unused)
            }
        } else if a == "--vdp"@ {
            if args.len() < 2 {
                OutcomeModel::MalformedValue { flag: ValueFlag::Vdp }
            } else {
                spec_scan(args.skip(2), ConfigModel { vdp_dll: Some(args[1]), ..cfg }, unused)
            }
        } else if a == "--firmware"@ {
            if args.len() < 2 {
                OutcomeModel::MalformedValue { flag: ValueFlag::Firmware }
            } else {
                match spec_firmware_from(args[1]) {
                    Some(f) => spec_scan(args.skip(2), ConfigModel { firmware: f, ..cfg }, unused),
                    None => OutcomeModel::InvalidChoice { flag: ValueFlag::Firmware, value: args[1] },
                }
            }
        } else if a == "--renderer"@ {
            if args.len() < 2 {
                OutcomeModel::MalformedValue { flag: ValueFlag::Renderer }
            } else {
                match spec_renderer_from(args[1]) {
                    Some(r) => spec_scan(args.skip(2), ConfigModel { renderer: r, ..cfg }, unused),
                    None => OutcomeModel::InvalidChoice { flag: ValueFlag::Renderer, value: args[1] },
                }
            }
        } else {
            spec_scan(args.skip(1), cfg, unused.push(a))
        }
    }
}

/// What parsing an argument vector yields: help wins over everything,
/// otherwise a scan from the all-defaults configuration.
pub open spec fn spec_parse(args: Seq<Seq<char>>) -> OutcomeModel {
    if spec_wants_help(args) {
        OutcomeModel::HelpRequested
    } else {
        spec_scan(args, spec_default_config(), Seq::empty())
    }
}

/// Parses an argument vector (the process arguments without the program
/// name) into exactly the outcome `spec_parse` describes.
pub fn parse_args(argv: &Vec<String>) -> (r: ParseOutcome)
    ensures
        r@ == spec_parse(argv.deep_view()),
{
    let ghost gargs: Seq<Seq<char>> = argv.deep_view();
    let mut i: usize = 0;
    while i < argv.len()
        invariant
            gargs == argv.deep_view(),
            gargs.len() == argv.len(),
            i <= argv.len(),
            forall|j: int| 0 <= j < i ==> !spec_is_help(gargs[j]),
        decreases argv.len() - i,
    {
        let a = &argv[i];
        proof {
            assert(gargs[i as int] == a@);
        }
        if str_eq(a.as_str(), "-h") || str_eq(a.as_str(), "--help") {
            assert(spec_wants_help(gargs));
            return ParseOutcome::HelpRequested;
        }
        i += 1;
    }
    assert(!spec_wants_help(gargs));
    let ghost goal: OutcomeModel = spec_parse(gargs);
    let mut cfg = default_app_args();
    let mut unused: Vec<String> = Vec::new();
    proof {
        assert(gargs.skip(0) =~= gargs);
        assert(unused.deep_view() =~= Seq::<Seq<char>>::empty());
        assert(goal == spec_scan(gargs.skip(0), cfg@, unused.deep_view()));
    }
    let mut i: usize = 0;
    while i < argv.len()
        invariant
            gargs == argv.deep_view(),
            gargs.len() == argv.len(),
            i <= argv.len(),
            goal == spec_parse(gargs),
            spec_scan(gargs.skip(i as int), cfg@, unused.deep_view()) == goal,
        decreases argv.len() - i,
    {
        let ghost rem = gargs.skip(i as int);
        let ghost prevc = cfg@;
        let ghost uv = unused.deep_view();
        let a = &argv[i];
        proof {
            assert(rem.len() == gargs.len() - i);
            assert(rem[0] == gargs[i as int]);
            assert(gargs[i as int] == a@);
            assert(rem.skip(1) =~= gargs.skip(i as int + 1));
        }
        if str_eq(a.as_str(), "-d") || str_eq(a.as_str(), "--debugger") {
            cfg.debugger = true;
            proof {
                assert(cfg@ =~= (ConfigModel { debugger: true, ..prevc }));
                assert(spec_scan(rem, prevc, uv) == spec_scan(rem.skip(1), cfg@, uv));
            }
            i += 1;
        } else if str_eq(a.as_str(), "-u") || str_eq(a.as_str(), "--unlimited-cpu") {
            cfg.unlimited_cpu = true;
            proof {
                assert(cfg@ =~= (ConfigModel { unlimited_cpu: true, ..prevc }));
                assert(spec_scan(rem, prevc, uv) == spec_scan(rem.skip(1), cfg@, uv));
            }
            i += 1;
        } else if str_eq(a.as_str(), "-f") || str_eq(a.as_str(), "--fullscreen") {
            cfg.fullscreen = true;
            proof {
                assert(cfg@ =~= (ConfigModel { fullscreen: true, ..prevc }));
                assert(spec_scan(rem, prevc, uv) == spec_scan(rem.skip(1), cfg@, uv));
            }
            i += 1;
        } else if str_eq(a.as_str(), "-z") || str_eq(a.as_str(), "--zero") {
            cfg.zero = true;
            proof {
                assert(cfg@ =~= (ConfigModel { zero: true, ..prevc }));
                assert(spec_scan(rem, prevc, uv) == spec_scan(rem.skip(1), cfg@, uv));
            }
            i += 1;
        } else if str_eq(a.as_str(), "--sdcard") {
            if i + 1 < argv.len() {
                let v = argv[i + 1].clone();
                proof {
                    assert(rem[1] == gargs[i as int + 1]);
                    assert(v@ == rem[1]);
                    assert(rem.skip(2) =~= gargs.skip(i as int + 2));
                }
                cfg.sdcard = Some(v);
                proof {
                    assert(cfg@ =~= (ConfigModel { sdcard: Some(rem[1]), ..prevc }));
                    assert(spec_scan(rem, prevc, uv) == spec_scan(rem.skip(2), cfg@, uv));
                }
                i += 2;
            } else {
                proof {
                    assert(spec_scan(rem, prevc, uv) == (OutcomeModel::MalformedValue {
                        flag: ValueFlag::Sdcard,
                    }));
                }
                return ParseOutcome::MalformedValue { flag: ValueFlag::Sdcard };
            }
        } else if str_eq(a.as_str(), "-b") || str_eq(a.as_str(), "--breakpoint") {
            if i + 1 < argv.len() {
                let v = argv[i + 1].clone();
                proof {
                    assert(rem[1] == gargs[i as int + 1]);
                    assert(v@ == rem[1]);
                    assert(rem.skip(2) =~= gargs.skip(i as int + 2));
                }
                cfg.breakpoint = Some(v);
                proof {
                    assert(cfg@ =~= (ConfigModel { breakpoint: Some(rem[1]), ..prevc }));
                    assert(spec_scan(rem, prevc, uv) == spec_scan(rem.skip(2), cfg@, uv));
                }
                i += 2;
            } else {
                proof {
                    assert(spec_scan(rem, prevc, uv) == (OutcomeModel::MalformedValue {
                        flag: ValueFlag::Breakpoint,
                    }));
                }
                return ParseOutcome::MalformedValue { flag: ValueFlag::Breakpoint };
            }
        } else if str_eq(a.as_str(), "--scale") {
            if i + 1 < argv.len() {
                proof {
                    assert(rem[1] == gargs[i as int + 1]);
                    assert(rem[1] == argv@[i as int + 1]@);
                    assert(rem.skip(2) =~= gargs.skip(i as int + 2));
                }
                match parse_u32_decimal(argv[i + 1].as_str()) {
                    Some(v) => {
                        cfg.perfect_scale = Some(v);
                        proof {
                            assert(cfg@ =~= (ConfigModel { perfect_scale: Some(v), ..prevc }));
                            assert(spec_scan(rem, prevc, uv) == spec_scan(rem.skip(2), cfg@, uv));
                        }
                        i += 2;
                    },
                    None => {
                        proof {
                            assert(spec_scan(rem, prevc, uv) == (OutcomeModel::MalformedValue {
                                flag: ValueFlag::Scale,
                            }));
                        }
                        return ParseOutcome::MalformedValue { flag: ValueFlag::Scale };
                    },
                }
            } else {
                proof {
                    assert(spec_scan(rem, prevc, uv) == (OutcomeModel::MalformedValue {
                        flag: ValueFlag::Scale,
                    }));
                }
                return ParseOutcome::MalformedValue { flag: ValueFlag::Scale };
            }
        } else if str_eq(a.as_str(), "--mos") {
            if i + 1 < argv.len() {
                let v = argv[i + 1].clone();
                proof {
                    assert(rem[1] == gargs[i as int + 1]);
                    assert(v@ == rem[1]);
                    assert(rem.skip(2) =~= gargs.skip(i as int + 2));
                }
                cfg.mos_bin = Some(v);
                proof {
                    assert(cfg@ =~= (ConfigModel { mos_bin: Some(rem[1]), ..prevc }));
                    assert(spec_scan(rem, prevc, uv) == spec_scan(rem.skip(2), cfg@, uv));
                }
                i += 2;
            } else {
                proof {
                    assert(spec_scan(rem, prevc, uv) == (OutcomeModel::MalformedValue {
                        flag: ValueFlag::Mos,
                    }));
                }
                return ParseOutcome::MalformedValue { flag: ValueFlag::Mos };
            }
        } else if str_eq(a.as_str(), "--vdp") {
            if i + 1 < argv.len() {
                let v = argv[i + 1].clone();
                proof {
                    assert(rem[1] == gargs[i as int + 1]);
                    assert(v@ == rem[1]);
                    assert(rem.skip(2) =~= gargs.skip(i as int + 2));
                }
                cfg.vdp_dll = Some(v);
                proof {
                    assert(cfg@ =~= (ConfigModel { vdp_dll: Some(rem[1]), ..prevc }));
                    assert(spec_scan(rem, prevc, uv) == spec_scan(rem.skip(2), cfg@, uv));
                }
                i += 2;
            } else {
                proof {
                    assert(spec_scan(rem, prevc, uv) == (OutcomeModel::MalformedValue {
                        flag: ValueFlag::Vdp,
                    }));
                }
                return ParseOutcome::MalformedValue { flag: ValueFlag::Vdp };
            }
        } else if str_eq(a.as_str(), "--firmware") {
            if i + 1 < argv.len() {
                proof {
                    assert(rem[1] == gargs[i as int + 1]);
                    assert(rem[1] == argv@[i as int + 1]@);
                    assert(rem.skip(2) =~= gargs.skip(i as int + 2));
                }
                match firmware_from_str(argv[i + 1].as_str()) {
                    Some(f) => {
                        cfg.firmware = f;
                        proof {
                            assert(cfg@ =~= (ConfigModel { firmware: f, ..prevc }));
                            assert(spec_scan(rem, prevc, uv) == spec_scan(rem.skip(2), cfg@, uv));
                        }
                        i += 2;
                    },
                    None => {
                        let v = argv[i + 1].clone();
                        proof {
                            assert(v@ == rem[1]);
                            assert(spec_scan(rem, prevc, uv) == (OutcomeModel::InvalidChoice {
                                flag: ValueFlag::Firmware,
                                value: rem[1],
                            }));
                        }
                        return ParseOutcome::InvalidChoice { flag: ValueFlag::Firmware, value: v };
                    },
                }
            } else {
                proof {
                    assert(spec_scan(rem, prevc, uv) == (OutcomeModel::MalformedValue {
                        flag: ValueFlag::Firmware,
                    }));
                }
                return ParseOutcome::MalformedValue { flag: ValueFlag::Firmware };
            }
        } else if str_eq(a.as_str(), "--renderer") {
            if i + 1 < argv.len() {
                proof {
                    assert(rem[1] == gargs[i as int + 1]);
                    assert(rem[1] == argv@[i as int + 1]@);
                    assert(rem.skip(2) =~= gargs.skip(i as int + 2));
                }
                match renderer_from_str(argv[i + 1].as_str()) {
                    Some(rr) => {
                        cfg.renderer = rr;
                        proof {
                            assert(cfg@ =~= (ConfigModel { renderer: rr, ..prevc }));
                            assert(spec_scan(rem, prevc, uv) == spec_scan(rem.skip(2), cfg@, uv));
                        }
                        i += 2;
                    },
                    None => {
                        let v = argv[i + 1].clone();
                        proof {
                            assert(v@ == rem[1]);
                            assert(spec_scan(rem, prevc, uv) == (OutcomeModel::InvalidChoice {
                                flag: ValueFlag::Renderer,
                                value: rem[1],
                            }));
                        }
                        return ParseOutcome::InvalidChoice { flag: ValueFlag::Renderer, value: v };
                    },
                }
            } else {
                proof {
                    assert(spec_scan(rem, prevc, uv) == (OutcomeModel::MalformedValue {
                        flag: ValueFlag::Renderer,
                    }));
                }
                return ParseOutcome::MalformedValue { flag: ValueFlag::Renderer };
            }
        } else {
            let v = a.clone();
            unused.push(v);
            proof {
                assert(unused.deep_view() =~= uv.push(rem[0]));
                assert(spec_scan(rem, prevc, uv) == spec_scan(rem.skip(1), prevc, uv.push(rem[0])));
            }
            i += 1;
        }
    }
    proof {
        assert(gargs.skip(i as int).len() == 0);
        assert(spec_scan(gargs.skip(i as int), cfg@, unused.deep_view()) == (OutcomeModel::Success {
            config: cfg@,
            unused: unused.deep_view(),
        }));
    }
    ParseOutcome::Success { config: cfg, unused }
}

} // verus!
