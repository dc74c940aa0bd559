//! What generation does to the filesystem, as data: the default path is a
//! fixed sequence of filesystem operations computed from the options; the
//! custom path names the template directory to copy. A `Runner` walks a
//! plan operation by operation and halts at the first failure.

use vstd::prelude::*;
use vstd::string::StringExecFns;
use crate::options::Inputs;
use crate::templates::config_file_text;
use crate::templates::config_text;
use crate::templates::manifest_text;
use crate::templates::render_manifest;
use crate::templates::ENTRY_POINT;

verus! {

/// One filesystem operation of the default generation path.
#[derive(Debug, PartialEq, Eq)]
pub enum FsOp {
    /// Create a directory together with its missing parents.
    CreateDirAll { path: String },
    /// Create one new directory; an existing one is a failure.
    CreateDir { path: String },
    /// Create a new file with the given contents; an existing one is a
    /// failure.
    WriteNewFile { path: String, contents: String },
}

/// The mathematical value of an `FsOp`.
pub enum FsOpView {
    CreateDirAll { path: Seq<char> },
    CreateDir { path: Seq<char> },
    WriteNewFile { path: Seq<char>, contents: Seq<char> },
}

impl View for FsOp {
    type V = FsOpView;

    open spec fn view(&self) -> FsOpView {
        match self {
            FsOp::CreateDirAll { path } => FsOpView::CreateDirAll { path: path@ },
            FsOp::CreateDir { path } => FsOpView::CreateDir { path: path@ },
            FsOp::WriteNewFile { path, contents } => FsOpView::WriteNewFile {
                path: path@,
                contents: contents@,
            },
        }
    }
}

impl DeepView for FsOp {
    type V = FsOpView;

    open spec fn deep_view(&self) -> FsOpView {
        self@
    }
}

impl Clone for FsOp {
    /// A clone stands for the same operation.
    fn clone(&self) -> (r: FsOp)
        ensures
            r@ == self@,
    {
        match self {
            FsOp::CreateDirAll { path } => FsOp::CreateDirAll { path: path.clone() },
            FsOp::CreateDir { path } => FsOp::CreateDir { path: path.clone() },
            FsOp::WriteNewFile { path, contents } => FsOp::WriteNewFile {
                path: path.clone(),
                contents: contents.clone(),
            },
        }
    }
}

/// The project directory relative to the working directory.
pub open spec fn project_root(name: Seq<char>) -> Seq<char> {
    "./"@ + name
}

/// The operations of the default generation path, in the order they run:
/// the source directory; when the build-configuration file is kept together
/// with optimizations, its directory and the file itself; the entry-point
/// file, named for a binary or a library; and the rendered manifest.
pub open spec fn default_plan(name: Seq<char>, config: bool, opt: bool, lib: bool) -> Seq<
    FsOpView,
> {
    let root = project_root(name);
    let dirs = seq![FsOpView::CreateDirAll { path: root + "/src"@ }];
    let cfg = if config && opt {
        seq![
            FsOpView::CreateDir { path: root + "/.cargo"@ },
            FsOpView::WriteNewFile { path: root + "/.cargo/config.toml"@, contents: config_text() },
        ]
    } else {
        Seq::<FsOpView>::empty()
    };
    let entry = seq![
        FsOpView::WriteNewFile {
            path: if lib {
                root + "/src/lib.rs"@
            } else {
                root + "/src/main.rs"@
            },
            contents: ENTRY_POINT@,
        },
    ];
    let manifest = seq![
        FsOpView::WriteNewFile { path: root + "/Cargo.toml"@, contents: manifest_text(name, opt) },
    ];
    dirs + cfg + entry + manifest
}

/// The project directory path for the given name.
pub fn project_path(name: &str) -> (r: String)
    ensures
        r@ == project_root(name@),
{
    let mut out: String = "./".to_owned();
    out.append(name);
    out
}

/// Computes the operations of the default generation path. The plan holds
/// exactly: the source directory, the optional build-configuration
/// directory and file, the entry-point file, and the rendered manifest.
pub fn default_project_plan(name: &str, config: bool, opt: bool, lib: bool) -> (r: Vec<FsOp>)
    ensures
        r.deep_view() == default_plan(name@, config, opt, lib),
{
    let root: String = project_path(name);
    let mut ops: Vec<FsOp> = Vec::new();
    let mut src_dir: String = root.clone();
    src_dir.append("/src");
    ops.push(FsOp::CreateDirAll { path: src_dir });
    if config && opt {
        let mut cargo_dir: String = root.clone();
        cargo_dir.append("/.cargo");
        ops.push(FsOp::CreateDir { path: cargo_dir });
        let mut config_path: String = root.clone();
        config_path.append("/.cargo/config.toml");
        ops.push(FsOp::WriteNewFile { path: config_path, contents: config_file_text() });
    }
    let mut entry_path: String = root.clone();
    if lib {
        entry_path.append("/src/lib.rs");
    } else {
        entry_path.append("/src/main.rs");
    }
    ops.push(FsOp::WriteNewFile { path: entry_path, contents: ENTRY_POINT.to_owned() });
    let mut manifest_path: String = root.clone();
    manifest_path.append("/Cargo.toml");
    ops.push(FsOp::WriteNewFile { path: manifest_path, contents: render_manifest(name, opt) });
    proof {
        assert(ops.deep_view() =~= default_plan(name@, config, opt, lib));
    }
    ops
}

/// What one run does to the filesystem, decided from the options.
pub enum ProjectPlan {
    /// The default path: the listed operations, in order.
    Generate { ops: Vec<FsOp> },
    /// The custom path: copy the template directory into the destination,
    /// then patch the copied manifest. The other flags are ignored.
    CopyTemplate { template_dir: String, dest: String },
}

/// Decides the path that the options call for: a supplied template
/// directory selects the copy path; otherwise the default plan is computed
/// from the flags.
pub fn project_plan(inputs: &Inputs) -> (r: ProjectPlan)
    ensures
        match inputs@.template_dir {
            Some(td) => (r matches ProjectPlan::CopyTemplate { template_dir, dest }
                && template_dir@ == td && dest@ == project_root(inputs@.name)),
            None => (r matches ProjectPlan::Generate { ops } && ops.deep_view() == default_plan(
                inputs@.name,
                inputs@.config,
                inputs@.opt,
                inputs@.lib,
            )),
        },
{
    match &inputs.template_dir {
        Some(td) => ProjectPlan::CopyTemplate {
            template_dir: td.clone(),
            dest: project_path(inputs.name.as_str()),
        },
        None => ProjectPlan::Generate {
            ops: default_project_plan(inputs.name.as_str(), inputs.config, inputs.opt, inputs.lib),
        },
    }
}

/// Walks a plan in order and stops at the first failure: once one
/// operation has failed, no further operation is issued.
pub struct Runner {
    plan: Vec<FsOp>,
    next: usize,
    failure: Option<String>,
}

impl Runner {
    /// The operations of the plan being run.
    pub closed spec fn ops(&self) -> Seq<FsOpView> {
        self.plan.deep_view()
    }

    /// How many operations have completed.
    pub closed spec fn position(&self) -> int {
        self.next as int
    }

    /// The text of the failure that stopped the run, if one did.
    pub closed spec fn failure_text(&self) -> Option<Seq<char>> {
        match self.failure {
            Some(ref e) => Some(e@),
            None => None,
        }
    }

    /// The run is over: an operation failed, or all of them completed.
    pub open spec fn halted(&self) -> bool {
        self.failure_text() is Some || self.position() >= self.ops().len()
    }

    /// A runner at the start of the given plan.
    pub fn new(plan: Vec<FsOp>) -> (r: Runner)
        ensures
            r.ops() == plan.deep_view(),
            r.position() == 0,
            r.failure_text() is None,
    {
        Runner { plan: plan, next: 0, failure: None }
    }

    /// The operation to perform next, or `None` once the run is over.
    pub fn pending(&self) -> (r: Option<FsOp>)
        ensures
            match r {
                Some(op) => !self.halted() && op@ == self.ops()[self.position()],
                None => self.halted(),
            },
    {
        if self.failure.is_some() {
            return None;
        }
        if self.next < self.plan.len() {
            Some(self.plan[self.next].clone())
        } else {
            None
        }
    }

    /// Records how the pending operation went: a success moves the run to
    /// the next operation; a failure halts it with the given text. Once
    /// the run is over, nothing changes.
    pub fn advance(&mut self, result: Result<(), String>)
        ensures
            final(self).ops() == old(self).ops(),
            old(self).halted() ==> {
                &&& final(self).position() == old(self).position()
                &&& final(self).failure_text() == old(self).failure_text()
            },
            !old(self).halted() ==> match result {
                Ok(u) => {
                    &&& final(self).position() == old(self).position() + 1
                    &&& final(self).failure_text() is None
                },
                Err(e) => {
                    &&& final(self).position() == old(self).position()
                    &&& final(self).failure_text() == Some(e@)
                },
            },
    {
        if self.failure.is_none() && self.next < self.plan.len() {
            match result {
                Ok(u) => {
                    self.next = self.next + 1;
                },
                Err(e) => {
                    self.failure = Some(e);
                },
            }
        }
    }

    /// The failure that stopped the run, or `None` for a clean run.
    pub fn outcome(&self) -> (r: Option<String>)
        ensures
            match r {
                Some(e) => self.failure_text() == Some(e@),
                None => self.failure_text() is None,
            },
    {
        match &self.failure {
            Some(e) => Some(e.clone()),
            None => None,
        }
    }
}

/// A failed operation halts the run: a runner that has recorded a failure
/// issues no further operation.
pub proof fn lemma_failure_halts(r: Runner)
    requires
        r.failure_text() is Some,
    ensures
        r.halted(),
{
}

/// What the recursive template copy does with one directory entry.
#[derive(Debug, Clone, Copy, PartialEq, Eq)]
pub enum CopyAction {
    /// Recreate the directory at the destination and recurse into it.
    EnterDirectory,
    /// Copy the file's bytes to the destination under the same name.
    CopyFile,
}

/// Decides what the template copy does with one directory entry: an entry
/// without a retrievable name aborts the copy with an error naming its
/// kind; a directory is recreated and entered; anything else is copied as
/// a file.
pub fn classify_entry(has_name: bool, is_dir: bool) -> (r: Result<CopyAction, String>)
    ensures
        r is Ok <==> has_name,
        match r {
            Ok(a) => (a is EnterDirectory <==> is_dir),
            Err(m) => m@ == if is_dir {
                "Directory has no name!"@
            } else {
                "File has no name!"@
            },
        },
{
    if !has_name {
        if is_dir {
            Err("Directory has no name!".to_owned())
        } else {
            Err("File has no name!".to_owned())
        }
    } else if is_dir {
        Ok(CopyAction::EnterDirectory)
    } else {
        Ok(CopyAction::CopyFile)
    }
}

} // verus!
