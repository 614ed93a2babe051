//! Laws of the grammar, stated and proved once and for all.

use vstd::prelude::*;
use crate::config::spec_default_config;
use crate::parser::OutcomeModel;
use crate::parser::spec_is_help;
use crate::parser::spec_parse;
use crate::parser::spec_scan;
use crate::parser::spec_wants_help;
use crate::config::ConfigModel;

verus! {

/// Whether a token is one of the recognized option names.
pub open spec fn spec_is_option_token(a: Seq<char>) -> bool {
    ||| spec_is_help(a)
    ||| a == "-d"@
    ||| a == "--debugger"@
    ||| a == "-u"@
    ||| a == "--unlimited-cpu"@
    ||| a == "-f"@
    ||| a == "--fullscreen"@
    ||| a == "-z"@
    ||| a == "--zero"@
    ||| a == "--sdcard"@
    ||| a == "-b"@
    ||| a == "--breakpoint"@
    ||| a == "--scale"@
    ||| a == "--mos"@
    ||| a == "--vdp"@
    ||| a == "--firmware"@
    ||| a == "--renderer"@
}

proof fn lemma_scan_no_options(args: Seq<Seq<char>>, cfg: ConfigModel, unused: Seq<Seq<char>>)
    requires
        forall|i: int| 0 <= i < args.len() ==> !spec_is_option_token(args[i]),
    ensures
        spec_scan(args, cfg, unused) == (OutcomeModel::Success { config: cfg, unused: unused + args }),
    decreases args.len(),
{
    if args.len() == 0 {
        assert(unused + args =~= unused);
    } else {
        assert(!spec_is_option_token(args[0]));
        assert(forall|i: int|
            0 <= i < args.skip(1).len() ==> !spec_is_option_token(#[trigger] args.skip(1)[i]));
        lemma_scan_no_options(args.skip(1), cfg, unused.push(args[0]));
        assert(unused.push(args[0]) + args.skip(1) =~= unused + args);
    }
}

/// Law: when every supported option is absent — no token of the vector is a
/// recognized option name — parsing succeeds with the all-defaults
/// configuration, and every token is reported back as unused.
pub proof fn lemma_defaults_when_no_options(args: Seq<Seq<char>>)
    requires
        forall|i: int| 0 <= i < args.len() ==> !spec_is_option_token(args[i]),
    ensures
        spec_parse(args) == (OutcomeModel::Success {
            config: spec_default_config(),
            unused: args,
        }),
{
    assert(!spec_wants_help(args));
    lemma_scan_no_options(args, spec_default_config(), Seq::empty());
    assert(Seq::<Seq<char>>::empty() + args =~= args);
}

/// Law: a help token anywhere in the vector short-circuits everything else;
/// whatever other tokens are present, even invalid ones, the outcome is the
/// help request.
pub proof fn lemma_help_short_circuits(args: Seq<Seq<char>>)
    requires
        spec_wants_help(args),
    ensures
        spec_parse(args) == OutcomeModel::HelpRequested,
{
}

/// Law: parsing is deterministic.  Two isolated parses of the same argument
/// vector agree exactly; with `parse_args`'s postcondition this makes two
/// runs on equal vectors yield identical outcomes.
pub proof fn lemma_reparse_agrees(args: Seq<Seq<char>>, r1: OutcomeModel, r2: OutcomeModel)
    requires
        r1 == spec_parse(args),
        r2 == spec_parse(args),
    ensures
        r1 == r2,
{
}

} // verus!
