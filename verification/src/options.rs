//! The options record and the argument parser. A raw argument list is
//! turned into an `Inputs` value plus a list of warnings: the first
//! argument is the project name; the remaining ones are scanned for the
//! recognized flags; a malformed template flag or an unknown token is
//! reported as a warning and ignored, never an error.

use vstd::prelude::*;
use vstd::string::StrSliceExecFns;
use crate::text::contains_seq;
use crate::text::contains_str;
use crate::text::find_first;
use crate::text::first_match;
use crate::text::lemma_first_match_unique;
use crate::text::str_eq;

verus! {

/// The validated options of one run.
pub struct Inputs {
    pub name: String,
    pub config: bool,
    pub opt: bool,
    pub lib: bool,
    pub template_dir: Option<String>,
}

/// The mathematical value of an `Inputs` record.
pub struct InputsView {
    pub name: Seq<char>,
    pub config: bool,
    pub opt: bool,
    pub lib: bool,
    pub template_dir: Option<Seq<char>>,
}

impl View for Inputs {
    type V = InputsView;

    open spec fn view(&self) -> InputsView {
        InputsView {
            name: self.name@,
            config: self.config,
            opt: self.opt,
            lib: self.lib,
            template_dir: self.template_dir.deep_view(),
        }
    }
}

/// The options before any argument is read: a full default project.
pub open spec fn default_inputs(name: Seq<char>) -> InputsView {
    InputsView { name: name, config: true, opt: true, lib: false, template_dir: None }
}

impl Default for Inputs {
    /// The all-default options with an empty name.
    fn default() -> (r: Inputs)
        ensures
            r@ == default_inputs(Seq::<char>::empty()),
    {
        let r = Inputs {
            name: String::new(),
            config: true,
            opt: true,
            lib: false,
            template_dir: None,
        };
        proof {
            assert(r@ =~= default_inputs(Seq::<char>::empty()));
        }
        r
    }
}

/// A non-fatal finding of the parser.
#[derive(Debug, PartialEq, Eq)]
pub enum Warning {
    /// The template flag came without `=` or with an empty value.
    MalformedTemplateDir,
    /// A token that no flag recognizes.
    UnknownArgument { arg: String },
}

/// The mathematical value of a `Warning`.
pub enum WarningView {
    MalformedTemplateDir,
    UnknownArgument { arg: Seq<char> },
}

impl View for Warning {
    type V = WarningView;

    open spec fn view(&self) -> WarningView {
        match self {
            Warning::MalformedTemplateDir => WarningView::MalformedTemplateDir,
            Warning::UnknownArgument { arg } => WarningView::UnknownArgument { arg: arg@ },
        }
    }
}

impl DeepView for Warning {
    type V = WarningView;

    open spec fn deep_view(&self) -> WarningView {
        self@
    }
}

/// The text after the first `=` of a template flag; meaningful only when
/// the argument holds an `=`.
pub open spec fn template_value(arg: Seq<char>) -> Seq<char> {
    arg.subrange(first_match(arg, "="@) + 1, arg.len() as int)
}

/// A template flag carrying a usable value: it holds an `=`, and something
/// follows the first one.
pub open spec fn well_formed_template_flag(arg: Seq<char>) -> bool {
    contains_seq(arg, "="@) && template_value(arg).len() > 0
}

/// How one argument token changes the options.
pub open spec fn step_inputs(o: InputsView, arg: Seq<char>) -> InputsView {
    if contains_seq(arg, "--template-dir"@) {
        if well_formed_template_flag(arg) {
            InputsView { template_dir: Some(template_value(arg)), ..o }
        } else {
            o
        }
    } else if arg == "--lib-not-main"@ {
        InputsView { lib: true, ..o }
    } else if arg == "--no-opt"@ {
        InputsView { opt: false, ..o }
    } else if arg == "--no-config"@ {
        InputsView { config: false, ..o }
    } else {
        o
    }
}

/// The warnings that one argument token raises.
pub open spec fn step_warnings(arg: Seq<char>) -> Seq<WarningView> {
    if contains_seq(arg, "--template-dir"@) {
        if well_formed_template_flag(arg) {
            Seq::empty()
        } else {
            seq![WarningView::MalformedTemplateDir]
        }
    } else if arg == "--lib-not-main"@ || arg == "--no-opt"@ || arg == "--no-config"@ {
        Seq::empty()
    } else {
        seq![WarningView::UnknownArgument { arg: arg }]
    }
}

/// The options that parsing the argument list yields: the first argument
/// is the name; the later ones are folded in one by one.
pub open spec fn parsed_inputs(args: Seq<Seq<char>>) -> InputsView
    decreases args.len(),
{
    if args.len() <= 1 {
        default_inputs(if args.len() == 0 { Seq::empty() } else { args[0] })
    } else {
        step_inputs(parsed_inputs(args.drop_last()), args.last())
    }
}

/// The warnings that parsing the argument list raises, in order.
pub open spec fn parsed_warnings(args: Seq<Seq<char>>) -> Seq<WarningView>
    decreases args.len(),
{
    if args.len() <= 1 {
        Seq::empty()
    } else {
        parsed_warnings(args.drop_last()) + step_warnings(args.last())
    }
}

/// Parses an argument list: the first argument becomes the project name,
/// the rest set the recognized flags; malformed or unknown tokens are
/// reported as warnings and ignored. Parsing never fails once a name is
/// present.
pub fn parse_args(args: &Vec<String>) -> (r: (Inputs, Vec<Warning>))
    requires
        args@.len() >= 1,
    ensures
        r.0@ == parsed_inputs(args.deep_view()),
        r.1.deep_view() == parsed_warnings(args.deep_view()),
{
    let mut inputs = Inputs {
        name: args[0].clone(),
        config: true,
        opt: true,
        lib: false,
        template_dir: None,
    };
    let mut warnings: Vec<Warning> = Vec::new();
    proof {
        assert(args.deep_view().take(1).len() == 1);
        assert(args.deep_view().take(1)[0] == args@[0]@);
        assert(inputs@ =~= parsed_inputs(args.deep_view().take(1)));
        assert(warnings.deep_view() =~= parsed_warnings(args.deep_view().take(1)));
    }
    let mut i: usize = 1;
    while i < args.len()
        invariant
            1 <= i <= args@.len(),
            inputs@ == parsed_inputs(args.deep_view().take(i as int)),
            warnings.deep_view() == parsed_warnings(args.deep_view().take(i as int)),
        decreases args@.len() - i,
    {
        let arg: &String = &args[i];
        let ghost prior: InputsView = inputs@;
        let ghost prior_warnings: Seq<WarningView> = warnings.deep_view();
        if contains_str(arg.as_str(), "--template-dir") {
            match find_first(arg.as_str(), "=") {
                Some(p) => {
                    proof {
                        reveal_strlit("=");
                        assert(("=")@.len() == 1);
                        lemma_first_match_unique(arg@, "="@, p as int, first_match(arg@, "="@));
                    }
                    let n: usize = arg.as_str().unicode_len();
                    if p + 1 < n {
                        let value: String = arg.as_str().substring_char(p + 1, n).to_owned();
                        inputs.template_dir = Some(value);
                    } else {
                        proof {
                            assert(template_value(arg@).len() == 0);
                        }
                        warnings.push(Warning::MalformedTemplateDir);
                    }
                },
                None => {
                    warnings.push(Warning::MalformedTemplateDir);
                },
            }
        } else if str_eq(arg.as_str(), "--lib-not-main") {
            inputs.lib = true;
        } else if str_eq(arg.as_str(), "--no-opt") {
            inputs.opt = false;
        } else if str_eq(arg.as_str(), "--no-config") {
            inputs.config = false;
        } else {
            warnings.push(Warning::UnknownArgument { arg: arg.clone() });
        }
        proof {
            let full = args.deep_view();
            assert(full.take(i + 1 as int).drop_last() =~= full.take(i as int));
            assert(full.take(i + 1 as int).last() == args@[i as int]@);
            assert(inputs@ =~= step_inputs(prior, arg@));
            assert(warnings.deep_view() =~= prior_warnings + step_warnings(arg@));
        }
        i += 1;
    }
    proof {
        assert(args.deep_view().take(args@.len() as int) =~= args.deep_view());
    }
    (inputs, warnings)
}

/// An argument that no flag recognizes leaves the options exactly as they
/// were and raises exactly one warning naming it.
pub proof fn lemma_unknown_flag_ignored(o: InputsView, arg: Seq<char>)
    requires
        !contains_seq(arg, "--template-dir"@),
        arg != "--lib-not-main"@,
        arg != "--no-opt"@,
        arg != "--no-config"@,
    ensures
        step_inputs(o, arg) == o,
        step_warnings(arg) == seq![WarningView::UnknownArgument { arg: arg }],
{
}

/// A malformed template flag (no `=`, or an empty value) leaves the
/// options exactly as they were, the template directory included, and
/// raises exactly one warning.
pub proof fn lemma_malformed_template_flag_ignored(o: InputsView, arg: Seq<char>)
    requires
        contains_seq(arg, "--template-dir"@),
        !well_formed_template_flag(arg),
    ensures
        step_inputs(o, arg) == o,
        step_warnings(arg) == seq![WarningView::MalformedTemplateDir],
{
}

/// Parsing never touches the project name: it stays the first argument.
pub proof fn lemma_parse_keeps_name(args: Seq<Seq<char>>)
    requires
        args.len() >= 1,
    ensures
        parsed_inputs(args).name == args[0],
    decreases args.len(),
{
    if args.len() > 1 {
        lemma_parse_keeps_name(args.drop_last());
    }
}

} // verus!
