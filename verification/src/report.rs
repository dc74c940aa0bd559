//! The texts and colors of everything the tool prints: the usage text, the
//! empty-argument warning, the parser's warnings, and the success and
//! failure reports.

use vstd::prelude::*;
use vstd::string::StringExecFns;
use crate::options::Warning;
use crate::options::WarningView;

verus! {

/// The usage text that a help flag prints.
pub const HELP_TEXT: &'static str = "`cargo-create` is a tool to create rust projects with a given configuration.\n--\nThe first argument must always be the name of your new project. This will also be the project directory name.\n\nIf used as is, this will generate a default project with a `main.rs` file, a `Cargo.toml` file with useful optimisations enabled, and a `.cargo/config.toml` file with more compiler optimisations enabled. These features can be toggled using the following arguments:\n\n    --no-opt       : disables all optimisation options\n    --no-config    : omits the `.cargo` directory, therefore doesn't create `config.toml`\n    --lib-not-main : replaces `main.rs` with `lib.rs`\n\nAdditionally, you can specify a custom project template with the `--template-dir` argument. The correct format is:\n    --template-dir=path/to/directory\nAdding a space will not result in this setting being ignored. Paths can be relative or absolute.\n\nIf a custom template is specified, other arguments are ignored.\n";

/// The color a report is printed in.
#[derive(Debug, Clone, Copy, PartialEq, Eq, Structural)]
pub enum Tint {
    Red,
    Green,
    Yellow,
}

/// One colored report: the lines are printed in the tint, in order.
pub struct Message {
    pub tint: Tint,
    pub lines: Vec<String>,
}

/// The warning printed when no argument was given.
pub fn empty_args_message() -> (r: Message)
    ensures
        r.tint == Tint::Red,
        r.lines.deep_view() == seq![
            "No arguments were provided. At least the name of the project is required."@,
        ],
{
    let mut lines: Vec<String> = Vec::new();
    lines.push(
        "No arguments were provided. At least the name of the project is required.".to_owned(),
    );
    proof {
        assert(lines.deep_view() =~= seq![
            "No arguments were provided. At least the name of the project is required."@,
        ]);
    }
    Message { tint: Tint::Red, lines }
}

/// The report of a run that created its project.
pub fn success_message(name: &str) -> (r: Message)
    ensures
        r.tint == Tint::Green,
        r.lines.deep_view() == seq!["Created project successfully! Name: "@ + name@],
{
    let mut line: String = "Created project successfully! Name: ".to_owned();
    line.append(name);
    let mut lines: Vec<String> = Vec::new();
    lines.push(line);
    proof {
        assert(lines.deep_view() =~= seq!["Created project successfully! Name: "@ + name@]);
    }
    Message { tint: Tint::Green, lines }
}

/// The report of a run that failed, with the underlying cause's text.
pub fn failure_message(cause: &str) -> (r: Message)
    ensures
        r.tint == Tint::Red,
        r.lines.deep_view() == seq!["Failed to create project. Reason:"@, cause@],
{
    let mut lines: Vec<String> = Vec::new();
    lines.push("Failed to create project. Reason:".to_owned());
    lines.push(cause.to_owned());
    proof {
        assert(lines.deep_view() =~= seq!["Failed to create project. Reason:"@, cause@]);
    }
    Message { tint: Tint::Red, lines }
}

/// The report of one finished run: the failure report with the cause's
/// text when one stopped it, else the success report naming the project.
pub fn outcome_message(failure: Option<&String>, name: &str) -> (r: Message)
    ensures
        match failure {
            Some(cause) => {
                &&& r.tint == Tint::Red
                &&& r.lines.deep_view() == seq!["Failed to create project. Reason:"@, cause@]
            },
            None => {
                &&& r.tint == Tint::Green
                &&& r.lines.deep_view() == seq!["Created project successfully! Name: "@ + name@]
            },
        },
{
    match failure {
        Some(cause) => failure_message(cause.as_str()),
        None => success_message(name),
    }
}

/// The text of one parser warning.
pub open spec fn warning_text(w: WarningView) -> Seq<char> {
    match w {
        WarningView::MalformedTemplateDir => "Incorrectly formatted argument: \"template-dir\""@,
        WarningView::UnknownArgument { arg } => "Unknown argument: \""@ + arg + "\". Ignoring."@,
    }
}

/// The report of one parser warning.
pub fn warning_message(w: &Warning) -> (r: Message)
    ensures
        r.tint == Tint::Yellow,
        r.lines.deep_view() == seq![warning_text(w@)],
{
    let line: String = match w {
        Warning::MalformedTemplateDir => {
            "Incorrectly formatted argument: \"template-dir\"".to_owned()
        },
        Warning::UnknownArgument { arg } => {
            let mut l: String = "Unknown argument: \"".to_owned();
            l.append(arg.as_str());
            l.append("\". Ignoring.");
            l
        },
    };
    let mut lines: Vec<String> = Vec::new();
    lines.push(line);
    proof {
        assert(lines.deep_view() =~= seq![warning_text(w@)]);
    }
    Message { tint: Tint::Yellow, lines }
}

} // verus!
