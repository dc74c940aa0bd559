use cargo_create::cli::plan_run;
use cargo_create::cli::RunPlan;
use cargo_create::options::Warning;
use cargo_create::plan::project_plan;
use cargo_create::plan::ProjectPlan;
use cargo_create::report::empty_args_message;
use cargo_create::report::outcome_message;
use cargo_create::report::warning_message;
use cargo_create::report::Tint;

fn args(list: &[&str]) -> Vec<String> {
    list.iter().map(|s| s.to_string()).collect()
}

#[test]
fn empty_arguments_only_warn() {
    let plan = plan_run(&args(&[]));
    assert!(matches!(plan, RunPlan::WarnEmpty));
    let msg = empty_args_message();
    assert_eq!(msg.tint, Tint::Red);
    assert_eq!(
        msg.lines,
        vec!["No arguments were provided. At least the name of the project is required."
            .to_string()]
    );
}

#[test]
fn help_flag_alone_prints_help() {
    assert!(matches!(plan_run(&args(&["--help"])), RunPlan::Help));
}

#[test]
fn help_flag_anywhere_takes_priority() {
    assert!(matches!(
        plan_run(&args(&["proj", "--no-opt", "--help"])),
        RunPlan::Help
    ));
    assert!(matches!(
        plan_run(&args(&["proj", "--help", "--bogus"])),
        RunPlan::Help
    ));
    assert!(matches!(
        plan_run(&args(&["--help", "proj"])),
        RunPlan::Help
    ));
}

#[test]
fn single_argument_gives_full_defaults() {
    match plan_run(&args(&["proj"])) {
        RunPlan::Run { inputs, warnings } => {
            assert_eq!(inputs.name, "proj");
            assert!(inputs.config);
            assert!(inputs.opt);
            assert!(!inputs.lib);
            assert!(inputs.template_dir.is_none());
            assert!(warnings.is_empty());
        }
        _ => panic!("expected a generation run"),
    }
}

#[test]
fn unknown_flag_warns_and_keeps_defaults() {
    match plan_run(&args(&["proj", "--bogus"])) {
        RunPlan::Run { inputs, warnings } => {
            assert_eq!(inputs.name, "proj");
            assert!(inputs.config);
            assert!(inputs.opt);
            assert!(!inputs.lib);
            assert!(inputs.template_dir.is_none());
            assert_eq!(
                warnings,
                vec![Warning::UnknownArgument {
                    arg: "--bogus".to_string()
                }]
            );
            let msg = warning_message(&warnings[0]);
            assert_eq!(msg.tint, Tint::Yellow);
            assert_eq!(
                msg.lines,
                vec!["Unknown argument: \"--bogus\". Ignoring.".to_string()]
            );
        }
        _ => panic!("expected a generation run"),
    }
}

#[test]
fn template_flag_without_value_is_ignored() {
    for raw in ["--template-dir", "--template-dir="] {
        match plan_run(&args(&["proj", raw])) {
            RunPlan::Run { inputs, warnings } => {
                assert!(inputs.template_dir.is_none());
                assert_eq!(warnings, vec![Warning::MalformedTemplateDir]);
                let msg = warning_message(&warnings[0]);
                assert_eq!(msg.tint, Tint::Yellow);
                assert_eq!(
                    msg.lines,
                    vec!["Incorrectly formatted argument: \"template-dir\"".to_string()]
                );
                assert!(matches!(
                    project_plan(&inputs),
                    ProjectPlan::Generate { .. }
                ));
            }
            _ => panic!("expected a generation run"),
        }
    }
}

#[test]
fn template_flag_with_value_selects_copy_path() {
    match plan_run(&args(&["proj", "--template-dir=path/to/tpl"])) {
        RunPlan::Run { inputs, warnings } => {
            assert_eq!(inputs.template_dir, Some("path/to/tpl".to_string()));
            assert!(warnings.is_empty());
            match project_plan(&inputs) {
                ProjectPlan::CopyTemplate { template_dir, dest } => {
                    assert_eq!(template_dir, "path/to/tpl");
                    assert_eq!(dest, "./proj");
                }
                _ => panic!("expected the copy path"),
            }
        }
        _ => panic!("expected a generation run"),
    }
}

#[test]
fn template_value_splits_on_first_equals() {
    match plan_run(&args(&["proj", "--template-dir=a=b"])) {
        RunPlan::Run { inputs, .. } => {
            assert_eq!(inputs.template_dir, Some("a=b".to_string()));
        }
        _ => panic!("expected a generation run"),
    }
}

#[test]
fn outcome_reports_success_or_the_cause() {
    let ok = outcome_message(None, "proj");
    assert_eq!(ok.tint, Tint::Green);
    assert_eq!(
        ok.lines,
        vec!["Created project successfully! Name: proj".to_string()]
    );
    let cause = "permission denied".to_string();
    let failed = outcome_message(Some(&cause), "proj");
    assert_eq!(failed.tint, Tint::Red);
    assert_eq!(
        failed.lines,
        vec![
            "Failed to create project. Reason:".to_string(),
            "permission denied".to_string(),
        ]
    );
}

#[test]
fn recognized_flags_set_their_options() {
    match plan_run(&args(&["proj", "--lib-not-main", "--no-opt", "--no-config"])) {
        RunPlan::Run { inputs, warnings } => {
            assert!(inputs.lib);
            assert!(!inputs.opt);
            assert!(!inputs.config);
            assert!(inputs.template_dir.is_none());
            assert!(warnings.is_empty());
        }
        _ => panic!("expected a generation run"),
    }
}
