//! The `sync` command: a placeholder that only reports what it would sync.

use vstd::prelude::*;

use crate::output::CommandOutput;
use crate::text::concat2;

verus! {

/// Arguments for the `sync` command.
pub struct SyncArgs {
    /// Repo to sync (if specific).
    pub repo: Option<String>,
    /// Force push to remote repo.
    pub force_push: bool,
}

/// The note that the command is a placeholder.
pub open spec fn spec_sync_note_line() -> Seq<char> {
    "Note: Sync command not fully implemented yet"@
}

/// The line naming the one repository that would be synced.
pub open spec fn spec_sync_repo_line(repo: Seq<char>) -> Seq<char> {
    "Would sync repo: "@ + repo
}

/// The line for syncing every repository.
pub open spec fn spec_sync_all_line() -> Seq<char> {
    "Would sync all repos"@
}

/// Handle the `sync` command: print an intent message only and exit 0.
pub fn handle_sync_command(args: &SyncArgs) -> (r: CommandOutput)
    ensures
        r.exit_code == 0,
        r.errs() =~= Seq::<Seq<char>>::empty(),
        args.repo is Some ==> r.outs() =~= seq![
            spec_sync_note_line(),
            spec_sync_repo_line(args.repo->0@),
        ],
        args.repo is None ==> r.outs() =~= seq![spec_sync_note_line(), spec_sync_all_line()],
{
    let mut outs: Vec<String> = Vec::new();
    outs.push(String::from_str("Note: Sync command not fully implemented yet"));
    match &args.repo {
        Option::Some(repo) => {
            outs.push(concat2("Would sync repo: ", repo.as_str()));
        },
        Option::None => {
            outs.push(String::from_str("Would sync all repos"));
        },
    }
    let out = CommandOutput { out_lines: outs, err_lines: Vec::new(), exit_code: 0 };
    proof {
        assert(out.errs() =~= Seq::<Seq<char>>::empty());
        if args.repo is Some {
            assert(out.outs() =~= seq![
                spec_sync_note_line(),
                spec_sync_repo_line(args.repo->0@),
            ]);
        } else {
            assert(out.outs() =~= seq![spec_sync_note_line(), spec_sync_all_line()]);
        }
    }
    out
}

} // verus!
