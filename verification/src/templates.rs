//! The static texts that generation writes, and the manifest rendering
//! rules: full rendering substitutes the project name for the first
//! occurrence of the placeholder token; minimal rendering keeps only the
//! first six manifest lines and rewrites the second one as the name
//! assignment. The minimal mode's line assumptions are tied to the line
//! list kept here.

use vstd::prelude::*;
use vstd::string::StrSliceExecFns;
use vstd::string::StringExecFns;
use crate::text::contains_seq;
use crate::text::first_match;
use crate::text::is_first_match;
use crate::text::join_terminated;
use crate::text::lemma_first_match_unique;
use crate::text::lemma_join_terminated_front;
use crate::text::lemma_split_join_terminated;
use crate::text::matches_at;
use crate::text::newline_free;
use crate::text::replace_first;
use crate::text::replace_first_spec;
use crate::text::split_lines;

verus! {

/// The token in the manifest template that stands for the project name.
pub const PLACEHOLDER: &'static str = "[NAME]";

/// The contents of the generated entry-point source file.
pub const ENTRY_POINT: &'static str = "fn main(){}";

/// The lines of the manifest template. The placeholder token stands on the
/// second line; the first six lines form the minimal manifest.
pub open spec fn manifest_lines() -> Seq<Seq<char>> {
    seq![
        "[package]"@,
        "name = \"[NAME]\""@,
        "version = \"0.1.0\""@,
        "edition = \"2024\""@,
        ""@,
        "[dependencies]"@,
        "# ADD DEPENDENCIES HERE"@,
        ""@,
        "[profile.dev]"@,
        "lto = \"off\""@,
        "opt-level = 1"@,
        ""@,
        "[profile.dev.package.\"*\"]"@,
        "opt-level = 3"@,
        ""@,
        "[profile.release]"@,
        "codegen-units = 1"@,
        "lto = \"fat\""@,
        "panic = \"abort\""@,
        "strip = \"symbols\""@,
        "opt-level = 3"@,
    ]
}

/// The manifest template as one text.
pub open spec fn manifest_template_text() -> Seq<char> {
    join_terminated(manifest_lines())
}

/// The lines of the build-configuration text.
pub open spec fn config_lines() -> Seq<Seq<char>> {
    seq![
        "[build]"@,
        "rustflags = [\"-C\", \"target-cpu=native\"]"@,
    ]
}

/// The build-configuration file as one text.
pub open spec fn config_text() -> Seq<char> {
    join_terminated(config_lines())
}

/// The manifest template, line by line.
pub fn manifest_template_lines() -> (r: Vec<String>)
    ensures
        r.deep_view() == manifest_lines(),
{
    let mut v: Vec<String> = Vec::new();
    v.push("[package]".to_owned());
    v.push("name = \"[NAME]\"".to_owned());
    v.push("version = \"0.1.0\"".to_owned());
    v.push("edition = \"2024\"".to_owned());
    v.push("".to_owned());
    v.push("[dependencies]".to_owned());
    v.push("# ADD DEPENDENCIES HERE".to_owned());
    v.push("".to_owned());
    v.push("[profile.dev]".to_owned());
    v.push("lto = \"off\"".to_owned());
    v.push("opt-level = 1".to_owned());
    v.push("".to_owned());
    v.push("[profile.dev.package.\"*\"]".to_owned());
    v.push("opt-level = 3".to_owned());
    v.push("".to_owned());
    v.push("[profile.release]".to_owned());
    v.push("codegen-units = 1".to_owned());
    v.push("lto = \"fat\"".to_owned());
    v.push("panic = \"abort\"".to_owned());
    v.push("strip = \"symbols\"".to_owned());
    v.push("opt-level = 3".to_owned());
    proof {
        assert(v.deep_view() =~= manifest_lines());
    }
    v
}

/// The manifest template as one text.
pub fn manifest_template() -> (r: String)
    ensures
        r@ == manifest_template_text(),
{
    let lines: Vec<String> = manifest_template_lines();
    crate::text::render_lines(&lines)
}

/// The build-configuration file as one text.
pub fn config_file_text() -> (r: String)
    ensures
        r@ == config_text(),
{
    let mut v: Vec<String> = Vec::new();
    v.push("[build]".to_owned());
    v.push("rustflags = [\"-C\", \"target-cpu=native\"]".to_owned());
    proof {
        assert(v.deep_view() =~= config_lines());
    }
    crate::text::render_lines(&v)
}

/// The name-assignment line of the minimal manifest.
pub open spec fn name_line(name: Seq<char>) -> Seq<char> {
    "name = \""@ + name + "\""@
}

/// The full manifest: the template with the project name substituted for
/// the first occurrence of the placeholder token.
pub open spec fn full_manifest(name: Seq<char>) -> Seq<char> {
    replace_first_spec(manifest_template_text(), PLACEHOLDER@, name)
}

/// The minimal manifest: exactly the first six template lines, the second
/// replaced by the name assignment, each line newline-terminated.
pub open spec fn minimal_manifest(name: Seq<char>) -> Seq<char> {
    join_terminated(manifest_lines().take(6).update(1, name_line(name)))
}

/// The manifest text that generation writes for the given name and
/// optimization choice.
pub open spec fn manifest_text(name: Seq<char>, opt: bool) -> Seq<char> {
    if opt {
        full_manifest(name)
    } else {
        minimal_manifest(name)
    }
}

/// Renders the manifest for a new project: the full template with the name
/// substituted when optimizations are kept, else the six-line minimal form.
pub fn render_manifest(name: &str, opt: bool) -> (r: String)
    ensures
        r@ == manifest_text(name@, opt),
{
    if opt {
        let template: String = manifest_template();
        replace_first(template.as_str(), PLACEHOLDER, name)
    } else {
        let lines: Vec<String> = manifest_template_lines();
        let mut assignment: String = "name = \"".to_owned();
        assignment.append(name);
        assignment.append("\"");
        proof {
            assert(lines@.len() == lines.deep_view().len());
            assert(manifest_lines().len() == 21);
        }
        let mut six: Vec<String> = Vec::new();
        six.push(lines[0].clone());
        six.push(assignment);
        six.push(lines[2].clone());
        six.push(lines[3].clone());
        six.push(lines[4].clone());
        six.push(lines[5].clone());
        proof {
            assert(six.deep_view() =~= manifest_lines().take(6).update(1, name_line(name@)));
        }
        crate::text::render_lines(&six)
    }
}

/// The placeholder token stands in the manifest template, first at the
/// position inside its second line where the name assignment expects it:
/// full rendering therefore always substitutes the project name there.
pub proof fn lemma_template_first_placeholder()
    ensures
        contains_seq(manifest_template_text(), PLACEHOLDER@),
        is_first_match(manifest_template_text(), PLACEHOLDER@, 18),
{
    let lines = manifest_lines();
    let rest = lines.drop_first();
    lemma_join_terminated_front(lines);
    lemma_join_terminated_front(rest);
    reveal_strlit("[package]");
    reveal_strlit("name = \"[NAME]\"");
    reveal_strlit("[NAME]");
    let text = manifest_template_text();
    let head = "[package]"@ + seq!['\n'] + "name = \"[NAME]\""@ + seq!['\n'];
    assert(rest[0] == "name = \"[NAME]\""@);
    assert(text =~= head + join_terminated(rest.drop_first()));
    assert forall|k: int| 0 <= k < head.len() implies text[k] == head[k] by {}
    assert(text.subrange(18, 24) =~= PLACEHOLDER@);
    assert(matches_at(text, PLACEHOLDER@, 18));
    assert forall|j: int| 0 <= j < 18 implies !matches_at(text, PLACEHOLDER@, j) by {
        if matches_at(text, PLACEHOLDER@, j) {
            assert(text.subrange(j, j + 6)[0] == text[j]);
            assert(text.subrange(j, j + 6)[1] == text[j + 1]);
            assert(text[j] == '[' && text[j + 1] == 'N');
        }
    }
}

/// The full manifest is the template with the project name standing in
/// place of the placeholder token and everything around it unchanged.
pub proof fn lemma_full_manifest_shape(name: Seq<char>)
    ensures
        full_manifest(name) == manifest_template_text().subrange(0, 18) + name
            + manifest_template_text().subrange(24, manifest_template_text().len() as int),
{
    lemma_template_first_placeholder();
    reveal_strlit("[NAME]");
    lemma_first_match_unique(
        manifest_template_text(),
        PLACEHOLDER@,
        18,
        first_match(manifest_template_text(), PLACEHOLDER@),
    );
}

/// The minimal manifest is exactly six lines: splitting the rendered text
/// on its newlines gives back the first six template lines with the second
/// replaced by the name assignment. (A name holding a newline would break
/// the line shape; the claim is made for names without one.)
pub proof fn lemma_minimal_manifest_line_shape(name: Seq<char>)
    requires
        newline_free(name),
    ensures
        split_lines(minimal_manifest(name)) == manifest_lines().take(6).update(
            1,
            name_line(name),
        ),
        split_lines(minimal_manifest(name)).len() == 6,
{
    let ls = manifest_lines().take(6).update(1, name_line(name));
    reveal_strlit("[package]");
    reveal_strlit("version = \"0.1.0\"");
    reveal_strlit("edition = \"2024\"");
    reveal_strlit("");
    reveal_strlit("[dependencies]");
    reveal_strlit("name = \"");
    reveal_strlit("\"");
    assert(newline_free(ls[0]));
    assert(newline_free(ls[1]));
    assert(newline_free(ls[2]));
    assert(newline_free(ls[3]));
    assert(newline_free(ls[4]));
    assert(newline_free(ls[5]));
    assert(forall|k: int| 0 <= k < ls.len() ==> newline_free(#[trigger] ls[k]));
    lemma_split_join_terminated(ls);
}

/// Patches a copied template's manifest: the first occurrence of the
/// placeholder token is replaced by the project name; a manifest without
/// the token is returned unchanged.
pub fn patch_manifest(contents: &str, name: &str) -> (r: String)
    ensures
        r@ == replace_first_spec(contents@, PLACEHOLDER@, name@),
{
    replace_first(contents, PLACEHOLDER, name)
}

} // verus!
