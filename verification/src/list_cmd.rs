//! The `list` command: enumerate the cached Justfiles.

use vstd::prelude::*;

use crate::cache::{list_justfiles, records_of, spec_list_justfiles};
use crate::fs_model::{views_of, FsSnapshot};
use crate::output::CommandOutput;
use crate::text::{concat2, concat3, dec_rep, u64_to_string};

verus! {

/// Arguments for the `list` command.
pub struct ListArgs {
    /// Show full paths.
    pub paths: bool,
}

/// The line for an empty cache.
pub open spec fn spec_no_justfiles_line() -> Seq<char> {
    "No Justfiles found. Use 'unjust sync <repo>' to add one."@
}

/// The header line above the listed Justfiles.
pub open spec fn spec_list_header_line() -> Seq<char> {
    "Success: Available Justfiles:"@
}

/// The numbered line for the record at `index`, with the path appended when
/// `with_paths` is set.
pub open spec fn spec_list_entry_line(
    index: int,
    name: Seq<char>,
    path: Seq<char>,
    with_paths: bool,
) -> Seq<char> {
    let base = dec_rep((index + 1) as nat) + ". "@ + name;
    if with_paths {
        base + " ("@ + path + ")"@
    } else {
        base
    }
}

/// Handle the `list` command: list the cached Justfiles and print one
/// numbered line per record under a header, or a message that none were
/// found. An empty cache is not an error: the exit code is always 0.
pub fn handle_list_command(
    args: &ListArgs,
    cache_dir: &Option<String>,
    children: &Vec<String>,
    fs: &FsSnapshot,
) -> (r: CommandOutput)
    ensures
        r.exit_code == 0,
        r.errs() =~= Seq::<Seq<char>>::empty(),
        spec_list_justfiles(*cache_dir, views_of(children@), *fs).len() == 0 ==> r.outs()
            =~= seq![spec_no_justfiles_line()],
        spec_list_justfiles(*cache_dir, views_of(children@), *fs).len() > 0 ==> {
            &&& r.outs().len() == spec_list_justfiles(
                *cache_dir,
                views_of(children@),
                *fs,
            ).len() + 1
            &&& r.outs()[0] == spec_list_header_line()
            &&& forall|k: int|
                0 <= k < spec_list_justfiles(*cache_dir, views_of(children@), *fs).len()
                    ==> r.outs()[k + 1] == spec_list_entry_line(
                    k,
                    spec_list_justfiles(*cache_dir, views_of(children@), *fs)[k].0,
                    spec_list_justfiles(*cache_dir, views_of(children@), *fs)[k].1,
                    args.paths,
                )
        },
{
    let justfiles = list_justfiles(cache_dir, children, fs);
    let ghost entries = spec_list_justfiles(*cache_dir, views_of(children@), *fs);
    let mut outs: Vec<String> = Vec::new();
    if justfiles.len() == 0 {
        outs.push(String::from_str("No Justfiles found. Use 'unjust sync <repo>' to add one."));
        let out = CommandOutput { out_lines: outs, err_lines: Vec::new(), exit_code: 0 };
        proof {
            assert(entries.len() == 0);
            assert(out.errs() =~= Seq::<Seq<char>>::empty());
            assert(out.outs() =~= seq![spec_no_justfiles_line()]);
        }
        return out;
    }
    outs.push(String::from_str("Success: Available Justfiles:"));
    let mut i: usize = 0;
    while i < justfiles.len()
        invariant
            i <= justfiles.len(),
            records_of(justfiles@) == entries,
            outs@.len() == i + 1,
            views_of(outs@)[0] == spec_list_header_line(),
            forall|k: int|
                0 <= k < i ==> views_of(outs@)[k + 1] == spec_list_entry_line(
                    k,
                    entries[k].0,
                    entries[k].1,
                    args.paths,
                ),
        decreases justfiles.len() - i,
    {
        let number = u64_to_string((i as u64) + 1);
        let base = concat3(number.as_str(), ". ", justfiles[i].repo_name.as_str());
        let line = if args.paths {
            let with_open = concat3(base.as_str(), " (", justfiles[i].path.as_str());
            concat2(with_open.as_str(), ")")
        } else {
            base
        };
        proof {
            assert(entries[i as int] == records_of(justfiles@)[i as int]);
            assert(line@ == spec_list_entry_line(
                i as int,
                entries[i as int].0,
                entries[i as int].1,
                args.paths,
            ));
        }
        outs.push(line);
        i = i + 1;
    }
    let out = CommandOutput { out_lines: outs, err_lines: Vec::new(), exit_code: 0 };
    proof {
        assert(entries.len() == records_of(justfiles@).len());
        assert(out.errs() =~= Seq::<Seq<char>>::empty());
    }
    out
}

} // verus!
