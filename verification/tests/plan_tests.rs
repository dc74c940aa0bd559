use cargo_create::plan::classify_entry;
use cargo_create::plan::default_project_plan;
use cargo_create::plan::CopyAction;
use cargo_create::plan::FsOp;
use cargo_create::plan::Runner;
use cargo_create::templates::config_file_text;
use cargo_create::templates::render_manifest;

#[test]
fn default_plan_creates_exactly_the_default_project() {
    let ops = default_project_plan("proj", true, true, false);
    let expected = vec![
        FsOp::CreateDirAll {
            path: "./proj/src".to_string(),
        },
        FsOp::CreateDir {
            path: "./proj/.cargo".to_string(),
        },
        FsOp::WriteNewFile {
            path: "./proj/.cargo/config.toml".to_string(),
            contents: config_file_text(),
        },
        FsOp::WriteNewFile {
            path: "./proj/src/main.rs".to_string(),
            contents: "fn main(){}".to_string(),
        },
        FsOp::WriteNewFile {
            path: "./proj/Cargo.toml".to_string(),
            contents: render_manifest("proj", true),
        },
    ];
    assert_eq!(ops, expected);
}

#[test]
fn disabling_config_or_opt_drops_the_config_file() {
    for (config, opt) in [(false, true), (true, false), (false, false)] {
        let ops = default_project_plan("proj", config, opt, false);
        assert_eq!(ops.len(), 3);
        assert!(matches!(&ops[0], FsOp::CreateDirAll { path } if path.as_str() == "./proj/src"));
        assert!(matches!(&ops[1], FsOp::WriteNewFile { path, .. }
            if path.as_str() == "./proj/src/main.rs"));
        assert!(matches!(&ops[2], FsOp::WriteNewFile { path, contents }
            if path.as_str() == "./proj/Cargo.toml" && *contents == render_manifest("proj", opt)));
    }
}

#[test]
fn library_flag_renames_the_entry_file() {
    let ops = default_project_plan("proj", false, false, true);
    assert!(matches!(&ops[1], FsOp::WriteNewFile { path, contents }
        if path.as_str() == "./proj/src/lib.rs" && contents.as_str() == "fn main(){}"));
}

#[test]
fn runner_issues_nothing_after_a_failure() {
    let ops = default_project_plan("proj", true, true, false);
    let total = ops.len();
    assert!(total > 2);
    let mut runner = Runner::new(ops);
    let first = runner.pending().expect("first operation pending");
    assert!(matches!(first, FsOp::CreateDirAll { .. }));
    runner.advance(Ok(()));
    assert!(runner.pending().is_some());
    runner.advance(Err("disk full".to_string()));
    assert!(runner.pending().is_none());
    assert_eq!(runner.outcome(), Some("disk full".to_string()));
}

#[test]
fn runner_walks_a_clean_plan_to_the_end() {
    let ops = default_project_plan("proj", true, true, false);
    let total = ops.len();
    let mut runner = Runner::new(ops);
    let mut performed: usize = 0;
    while let Some(_op) = runner.pending() {
        runner.advance(Ok(()));
        performed += 1;
        assert!(performed <= total);
    }
    assert_eq!(performed, total);
    assert_eq!(runner.outcome(), None);
}

#[test]
fn entries_without_names_abort_the_copy() {
    assert_eq!(
        classify_entry(false, true),
        Err("Directory has no name!".to_string())
    );
    assert_eq!(
        classify_entry(false, false),
        Err("File has no name!".to_string())
    );
    assert_eq!(classify_entry(true, true), Ok(CopyAction::EnterDirectory));
    assert_eq!(classify_entry(true, false), Ok(CopyAction::CopyFile));
}
