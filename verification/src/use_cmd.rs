//! The `use` command: resolve a repository's cached Justfile and report it,
//! provided the external task runner is installed.

use vstd::prelude::*;

use crate::cache::{find_justfile, spec_justfile_path};
use crate::fs_model::FsSnapshot;
use crate::output::CommandOutput;
use crate::text::{concat2, concat3};

verus! {

/// Arguments for the `use` command.
pub struct UseArgs {
    /// Repo identifier (username/repo).
    pub repo: Option<String>,
    /// Store upstream and current repo Justfiles separately.
    pub separate_upstream_justfile: bool,
    /// Force refresh from remote.
    pub force: bool,
}

/// The error line for a `use` invocation without a repository argument.
pub open spec fn spec_missing_repo_line() -> Seq<char> {
    "Error: Repository not specified"@
}

/// The error line for a repository with no cached Justfile.
pub open spec fn spec_not_found_line(repo: Seq<char>) -> Seq<char> {
    "Error: Justfile not found for repo: "@ + repo
}

/// The hint line suggesting a sync for the missing repository.
pub open spec fn spec_sync_hint_line(repo: Seq<char>) -> Seq<char> {
    "Run 'unjust sync "@ + repo + "' to sync from remote"@
}

/// The error line for a machine without the external task runner.
pub open spec fn spec_runner_missing_line() -> Seq<char> {
    "Error: 'just' command not found. Please install just: https://github.com/casey/just"@
}

/// The success line naming the resolved Justfile.
pub open spec fn spec_using_line(path: Seq<char>) -> Seq<char> {
    "Success: Using Justfile from: "@ + path
}

/// The line describing the delegation that would follow.
pub open spec fn spec_would_execute_line(path: Seq<char>) -> Seq<char> {
    "Would execute just with Justfile: "@ + path
}

/// What a `use` invocation prints and returns, given the parsed arguments,
/// the filesystem facts, and whether the task runner is installed:
/// a missing repository argument and a missing Justfile each exit 1 with
/// their error lines, a missing task runner exits 1, and otherwise the
/// resolved Justfile path is reported with exit 0.
pub open spec fn use_output_ok(
    r: CommandOutput,
    args: UseArgs,
    cache_dir: Seq<char>,
    fs: FsSnapshot,
    runner_installed: bool,
) -> bool {
    match args.repo {
        Option::None => {
            &&& r.exit_code == 1
            &&& r.outs() =~= Seq::<Seq<char>>::empty()
            &&& r.errs() =~= seq![spec_missing_repo_line()]
        },
        Option::Some(repo) => {
            let jp = spec_justfile_path(cache_dir, repo@);
            if !fs.path_exists(jp) {
                &&& r.exit_code == 1
                &&& r.outs() =~= Seq::<Seq<char>>::empty()
                &&& r.errs() =~= seq![spec_not_found_line(repo@), spec_sync_hint_line(repo@)]
            } else if !runner_installed {
                &&& r.exit_code == 1
                &&& r.outs() =~= Seq::<Seq<char>>::empty()
                &&& r.errs() =~= seq![spec_runner_missing_line()]
            } else {
                &&& r.exit_code == 0
                &&& r.errs() =~= Seq::<Seq<char>>::empty()
                &&& r.outs() =~= seq![spec_using_line(jp), spec_would_execute_line(jp)]
            }
        },
    }
}

/// Decide the outcome of a `use` invocation from the parsed arguments, the
/// filesystem snapshot and the reported availability of the task runner.
pub fn use_outcome(
    args: &UseArgs,
    cache_dir: &str,
    fs: &FsSnapshot,
    runner_installed: bool,
) -> (r: CommandOutput)
    ensures
        use_output_ok(r, *args, cache_dir@, *fs, runner_installed),
{
    let repo = match &args.repo {
        Option::Some(repo) => repo,
        Option::None => {
            let mut errs: Vec<String> = Vec::new();
            errs.push(String::from_str("Error: Repository not specified"));
            let out = CommandOutput { out_lines: Vec::new(), err_lines: errs, exit_code: 1 };
            proof {
                assert(out.outs() =~= Seq::<Seq<char>>::empty());
                assert(out.errs() =~= seq![spec_missing_repo_line()]);
            }
            return out;
        },
    };
    match find_justfile(repo.as_str(), args.separate_upstream_justfile, cache_dir, fs) {
        Option::Some(justfile) => {
            if !runner_installed {
                let mut errs: Vec<String> = Vec::new();
                errs.push(
                    String::from_str(
                        "Error: 'just' command not found. Please install just: https://github.com/casey/just",
                    ),
                );
                let out = CommandOutput { out_lines: Vec::new(), err_lines: errs, exit_code: 1 };
                proof {
                    assert(out.outs() =~= Seq::<Seq<char>>::empty());
                    assert(out.errs() =~= seq![spec_runner_missing_line()]);
                }
                out
            } else {
                let mut outs: Vec<String> = Vec::new();
                outs.push(concat2("Success: Using Justfile from: ", justfile.path.as_str()));
                outs.push(concat2("Would execute just with Justfile: ", justfile.path.as_str()));
                let out = CommandOutput { out_lines: outs, err_lines: Vec::new(), exit_code: 0 };
                proof {
                    let jp = spec_justfile_path(cache_dir@, repo@);
                    assert(out.errs() =~= Seq::<Seq<char>>::empty());
                    assert(out.outs() =~= seq![spec_using_line(jp), spec_would_execute_line(jp)]);
                }
                out
            }
        },
        Option::None => {
            let mut errs: Vec<String> = Vec::new();
            errs.push(concat2("Error: Justfile not found for repo: ", repo.as_str()));
            errs.push(concat3("Run 'unjust sync ", repo.as_str(), "' to sync from remote"));
            let out = CommandOutput { out_lines: Vec::new(), err_lines: errs, exit_code: 1 };
            proof {
                assert(out.outs() =~= Seq::<Seq<char>>::empty());
                assert(out.errs() =~= seq![
                    spec_not_found_line(repo@),
                    spec_sync_hint_line(repo@),
                ]);
            }
            out
        },
    }
}

/// Whether the external task runner is installed.
///
/// Relies on which::which: it searches the system's executable search path
/// for the given name and errs exactly when nothing is found. The result
/// depends on the machine, so nothing is promised of it.
#[verifier::external_body]
fn task_runner_on_path(name: &str) -> bool {
    which::which(name).is_ok()
}

/// Handle the `use` command: look the task runner up on the search path and
/// decide the outcome. Whatever that lookup reported, the outcome is the
/// `use` outcome for some availability of the runner; the branches that do
/// not depend on the runner are thereby pinned exactly.
pub fn handle_use_command(args: &UseArgs, cache_dir: &str, fs: &FsSnapshot) -> (r: CommandOutput)
    ensures
        exists|runner_installed: bool|
            use_output_ok(r, *args, cache_dir@, *fs, runner_installed),
{
    let runner_installed = task_runner_on_path("just");
    let r = use_outcome(args, cache_dir, fs, runner_installed);
    proof {
        assert(use_output_ok(r, *args, cache_dir@, *fs, runner_installed));
    }
    r
}

} // verus!
