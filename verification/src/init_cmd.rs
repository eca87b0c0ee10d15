//! The `init` command: a placeholder that only reports the Justfile it
//! would initialize.

use vstd::prelude::*;

use crate::output::CommandOutput;
use crate::text::concat2;

verus! {

/// Arguments for the `init` command.
pub struct InitArgs {
    /// Name for the new Justfile.
    pub name: Option<String>,
    /// Template to use (existing Justfile name).
    pub template: Option<String>,
}

/// The note that the command is a placeholder.
pub open spec fn spec_init_note_line() -> Seq<char> {
    "Note: Init command not fully implemented yet"@
}

/// The line naming the Justfile that would be initialized.
pub open spec fn spec_init_name_line(name: Seq<char>) -> Seq<char> {
    "Would initialize new Justfile with name: "@ + name
}

/// The line naming the template that would be used.
pub open spec fn spec_template_line(template: Seq<char>) -> Seq<char> {
    "Would use template: "@ + template
}

/// The line for initializing without a template.
pub open spec fn spec_basic_line() -> Seq<char> {
    "Would create a basic Justfile"@
}

/// The error line for a working directory that could not be determined.
pub open spec fn spec_cwd_error_line(detail: Seq<char>) -> Seq<char> {
    "Error: Failed to get current directory: "@ + detail
}

/// The name an `init` invocation settles on: the given name if any, else the
/// base name of the current working directory, else `default`.
pub open spec fn spec_init_name(args: InitArgs, cwd_base: Result<Option<String>, String>) -> Seq<
    char,
>
    recommends
        args.name is Some || cwd_base is Ok,
{
    if args.name is Some {
        args.name->0@
    } else {
        match cwd_base->Ok_0 {
            Option::Some(base) => base@,
            Option::None => "default"@,
        }
    }
}

/// What an `init` invocation prints and returns. `cwd_base` is the caller's
/// report of the working directory's base name: an error message when the
/// working directory could not be determined, `Ok(None)` when it has no base
/// name. Only an invocation that needs the working directory and cannot get
/// it fails.
pub open spec fn init_output_ok(
    r: CommandOutput,
    args: InitArgs,
    cwd_base: Result<Option<String>, String>,
) -> bool {
    if args.name is None && cwd_base is Err {
        &&& r.exit_code == 1
        &&& r.outs() =~= Seq::<Seq<char>>::empty()
        &&& r.errs() =~= seq![spec_cwd_error_line(cwd_base->Err_0@)]
    } else {
        &&& r.exit_code == 0
        &&& r.errs() =~= Seq::<Seq<char>>::empty()
        &&& r.outs() =~= seq![
            spec_init_note_line(),
            spec_init_name_line(spec_init_name(args, cwd_base)),
            match args.template {
                Option::Some(template) => spec_template_line(template@),
                Option::None => spec_basic_line(),
            },
        ]
    }
}

/// Handle the `init` command: settle the Justfile name and print what would
/// be initialized.
pub fn handle_init_command(args: &InitArgs, cwd_base: &Result<Option<String>, String>) -> (r:
    CommandOutput)
    ensures
        init_output_ok(r, *args, *cwd_base),
{
    let name: &str = match &args.name {
        Option::Some(name) => name.as_str(),
        Option::None => {
            match cwd_base {
                Result::Ok(Option::Some(base)) => base.as_str(),
                Result::Ok(Option::None) => "default",
                Result::Err(detail) => {
                    let mut errs: Vec<String> = Vec::new();
                    errs.push(concat2("Error: Failed to get current directory: ", detail.as_str()));
                    let out = CommandOutput {
                        out_lines: Vec::new(),
                        err_lines: errs,
                        exit_code: 1,
                    };
                    proof {
                        assert(out.outs() =~= Seq::<Seq<char>>::empty());
                        assert(out.errs() =~= seq![spec_cwd_error_line(cwd_base->Err_0@)]);
                    }
                    return out;
                },
            }
        },
    };
    let mut outs: Vec<String> = Vec::new();
    outs.push(String::from_str("Note: Init command not fully implemented yet"));
    outs.push(concat2("Would initialize new Justfile with name: ", name));
    match &args.template {
        Option::Some(template) => {
            outs.push(concat2("Would use template: ", template.as_str()));
        },
        Option::None => {
            outs.push(String::from_str("Would create a basic Justfile"));
        },
    }
    let out = CommandOutput { out_lines: outs, err_lines: Vec::new(), exit_code: 0 };
    proof {
        assert(name@ == spec_init_name(*args, *cwd_base));
        assert(out.errs() =~= Seq::<Seq<char>>::empty());
        assert(out.outs() =~= seq![
            spec_init_note_line(),
            spec_init_name_line(spec_init_name(*args, *cwd_base)),
            match args.template {
                Option::Some(template) => spec_template_line(template@),
                Option::None => spec_basic_line(),
            },
        ]);
    }
    out
}

} // verus!
