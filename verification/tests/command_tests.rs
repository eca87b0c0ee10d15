use unjust::{
    handle_init_command, handle_list_command, handle_sync_command, handle_use_command,
    use_outcome, FsSnapshot, InitArgs, ListArgs, SyncArgs, UseArgs,
};

fn s(x: &str) -> String {
    String::from(x)
}

fn empty_fs() -> FsSnapshot {
    FsSnapshot { files: Vec::new(), dirs: Vec::new() }
}

const ROOT: &str = "/home/user/.cache/unjust";

fn two_repo_fs() -> FsSnapshot {
    FsSnapshot {
        files: vec![
            s("/home/user/.cache/unjust/repo1/Justfile"),
            s("/home/user/.cache/unjust/user%2Frepo2/Justfile"),
        ],
        dirs: vec![
            s("/home/user/.cache/unjust"),
            s("/home/user/.cache/unjust/repo1"),
            s("/home/user/.cache/unjust/user%2Frepo2"),
        ],
    }
}

#[test]
fn test_list_empty_cache() {
    let fs = FsSnapshot { files: Vec::new(), dirs: vec![s(ROOT)] };

    let out = handle_list_command(&ListArgs { paths: false }, &Some(s(ROOT)), &Vec::new(), &fs);

    assert_eq!(out.exit_code, 0);
    assert!(out.err_lines.is_empty());
    assert_eq!(
        out.out_lines,
        vec![s("No Justfiles found. Use 'unjust sync <repo>' to add one.")]
    );
}

#[test]
fn test_list_two_repos() {
    let children = vec![s("repo1"), s("user%2Frepo2")];

    let out = handle_list_command(
        &ListArgs { paths: false },
        &Some(s(ROOT)),
        &children,
        &two_repo_fs(),
    );

    assert_eq!(out.exit_code, 0);
    assert_eq!(
        out.out_lines,
        vec![s("Success: Available Justfiles:"), s("1. repo1"), s("2. user%2Frepo2")]
    );
}

#[test]
fn test_list_two_repos_with_paths() {
    let children = vec![s("repo1"), s("user%2Frepo2")];

    let out = handle_list_command(
        &ListArgs { paths: true },
        &Some(s(ROOT)),
        &children,
        &two_repo_fs(),
    );

    assert_eq!(out.exit_code, 0);
    assert_eq!(
        out.out_lines,
        vec![
            s("Success: Available Justfiles:"),
            s("1. repo1 (/home/user/.cache/unjust/repo1/Justfile)"),
            s("2. user%2Frepo2 (/home/user/.cache/unjust/user%2Frepo2/Justfile)"),
        ]
    );
    assert!(out.out_lines[1].contains(ROOT));
    assert!(out.out_lines[2].contains(ROOT));
}

#[test]
fn test_list_numbering_past_ten() {
    let mut children: Vec<String> = Vec::new();
    let mut files: Vec<String> = Vec::new();
    let mut dirs: Vec<String> = vec![s(ROOT)];
    for i in 1..=12 {
        let name = format!("repo{}", i);
        dirs.push(format!("{}/{}", ROOT, name));
        files.push(format!("{}/{}/Justfile", ROOT, name));
        children.push(name);
    }
    let fs = FsSnapshot { files, dirs };

    let out = handle_list_command(&ListArgs { paths: false }, &Some(s(ROOT)), &children, &fs);

    assert_eq!(out.exit_code, 0);
    assert_eq!(out.out_lines.len(), 13);
    assert_eq!(out.out_lines[9], "9. repo9");
    assert_eq!(out.out_lines[10], "10. repo10");
    assert_eq!(out.out_lines[12], "12. repo12");
}

#[test]
fn test_use_missing_repo() {
    let args = UseArgs { repo: None, separate_upstream_justfile: false, force: false };

    let out = handle_use_command(&args, ROOT, &empty_fs());

    assert_eq!(out.exit_code, 1);
    assert!(out.out_lines.is_empty());
    assert_eq!(out.err_lines, vec![s("Error: Repository not specified")]);
    assert!(out.err_lines[0].contains("Repository not specified"));
}

#[test]
fn test_use_not_found() {
    let args = UseArgs {
        repo: Some(s("nonexistent/repo")),
        separate_upstream_justfile: false,
        force: false,
    };

    let out = handle_use_command(&args, ROOT, &empty_fs());

    assert_eq!(out.exit_code, 1);
    assert!(out.out_lines.is_empty());
    assert_eq!(
        out.err_lines,
        vec![
            s("Error: Justfile not found for repo: nonexistent/repo"),
            s("Run 'unjust sync nonexistent/repo' to sync from remote"),
        ]
    );
    assert!(out.err_lines[0].contains("not found"));
}

#[test]
fn test_use_success_with_runner() {
    let fs = FsSnapshot {
        files: vec![s("/home/user/.cache/unjust/test/repo/Justfile")],
        dirs: vec![s(ROOT)],
    };
    let args = UseArgs { repo: Some(s("test/repo")), separate_upstream_justfile: false, force: false };

    let out = use_outcome(&args, ROOT, &fs, true);

    assert_eq!(out.exit_code, 0);
    assert!(out.err_lines.is_empty());
    assert_eq!(
        out.out_lines,
        vec![
            s("Success: Using Justfile from: /home/user/.cache/unjust/test/repo/Justfile"),
            s("Would execute just with Justfile: /home/user/.cache/unjust/test/repo/Justfile"),
        ]
    );
    assert!(out.out_lines[0].contains("Using Justfile from"));
}

#[test]
fn test_use_runner_missing() {
    let fs = FsSnapshot {
        files: vec![s("/home/user/.cache/unjust/test/repo/Justfile")],
        dirs: vec![s(ROOT)],
    };
    let args = UseArgs { repo: Some(s("test/repo")), separate_upstream_justfile: false, force: false };

    let out = use_outcome(&args, ROOT, &fs, false);

    assert_eq!(out.exit_code, 1);
    assert!(out.out_lines.is_empty());
    assert_eq!(
        out.err_lines,
        vec![s(
            "Error: 'just' command not found. Please install just: https://github.com/casey/just"
        )]
    );
}

#[test]
fn test_sync_all_repos() {
    let out = handle_sync_command(&SyncArgs { repo: None, force_push: false });

    assert_eq!(out.exit_code, 0);
    assert!(out.err_lines.is_empty());
    assert_eq!(
        out.out_lines,
        vec![s("Note: Sync command not fully implemented yet"), s("Would sync all repos")]
    );
}

#[test]
fn test_sync_one_repo() {
    let out = handle_sync_command(&SyncArgs { repo: Some(s("test/repo")), force_push: true });

    assert_eq!(out.exit_code, 0);
    assert_eq!(
        out.out_lines,
        vec![
            s("Note: Sync command not fully implemented yet"),
            s("Would sync repo: test/repo"),
        ]
    );
}

#[test]
fn test_init_with_name() {
    let out = handle_init_command(
        &InitArgs { name: Some(s("custom")), template: None },
        &Ok(Some(s("elsewhere"))),
    );

    assert_eq!(out.exit_code, 0);
    assert_eq!(
        out.out_lines,
        vec![
            s("Note: Init command not fully implemented yet"),
            s("Would initialize new Justfile with name: custom"),
            s("Would create a basic Justfile"),
        ]
    );
}

#[test]
fn test_init_with_template() {
    let out = handle_init_command(
        &InitArgs { name: Some(s("custom")), template: Some(s("template")) },
        &Ok(None),
    );

    assert_eq!(out.exit_code, 0);
    assert_eq!(out.out_lines[1], "Would initialize new Justfile with name: custom");
    assert_eq!(out.out_lines[2], "Would use template: template");
}

#[test]
fn test_init_name_from_current_dir() {
    let out = handle_init_command(
        &InitArgs { name: None, template: None },
        &Ok(Some(s("myproject"))),
    );

    assert_eq!(out.exit_code, 0);
    assert_eq!(out.out_lines[1], "Would initialize new Justfile with name: myproject");
}

#[test]
fn test_init_default_name() {
    let out = handle_init_command(&InitArgs { name: None, template: None }, &Ok(None));

    assert_eq!(out.exit_code, 0);
    assert_eq!(out.out_lines[1], "Would initialize new Justfile with name: default");
}

#[test]
fn test_init_cwd_error() {
    let out = handle_init_command(
        &InitArgs { name: None, template: None },
        &Err(s("permission denied")),
    );

    assert_eq!(out.exit_code, 1);
    assert!(out.out_lines.is_empty());
    assert_eq!(
        out.err_lines,
        vec![s("Error: Failed to get current directory: permission denied")]
    );
}
