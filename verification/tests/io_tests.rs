use tohum::config::config_path;
use tohum::git::{
    check_step_status, fetch_github_directory, git_sparse_clone, sparse_fetch_progress,
    FetchProgress,
};
use tohum::io::{copy_dir_recursive, is_binary, replace_dir_recursive, CopyStep, DirEntry, FileHead};
use tohum::process::check_exit_status;
use tohum::text::{find_char, join_parent, join_parts, join_path, same_text};

#[test]
fn unopened_file_is_binary() {
    assert!(is_binary(&FileHead::Unopened));
}

#[test]
fn nul_byte_in_window_is_binary() {
    assert!(is_binary(&FileHead::Bytes(vec![b'a', 0, b'b'])));
    assert!(is_binary(&FileHead::Bytes(vec![0])));
    let mut edge = vec![b'a'; 1024];
    edge[1023] = 0;
    assert!(is_binary(&FileHead::Bytes(edge)));
}

#[test]
fn text_and_empty_files_are_text() {
    assert!(!is_binary(&FileHead::Bytes(Vec::new())));
    assert!(!is_binary(&FileHead::Bytes(b"Hello {{ title }}".to_vec())));
    assert!(!is_binary(&FileHead::Bytes(vec![0xff, 0xfe, 1, 2])));
}

#[test]
fn nul_byte_beyond_window_is_not_seen() {
    let mut bytes = vec![b'a'; 1024];
    bytes.push(0);
    assert!(!is_binary(&FileHead::Bytes(bytes)));
}

#[test]
fn same_file_gets_the_same_answer() {
    let head = FileHead::Bytes(vec![1, 2, 0, 3]);
    let first = is_binary(&head);
    let second = is_binary(&head);
    assert_eq!(first, second);
    let text = FileHead::Bytes(b"plain".to_vec());
    assert_eq!(is_binary(&text), is_binary(&text.clone()));
}

fn io_entries() -> Vec<DirEntry> {
    vec![
        DirEntry { name: "src".to_string(), is_dir: true },
        DirEntry { name: "index.txt".to_string(), is_dir: false },
    ]
}

#[test]
fn copy_creates_missing_destination_first() {
    let steps = copy_dir_recursive("/tmp/x/web", "out/demo", false, &io_entries());
    assert_eq!(steps.len(), 3);
    assert!(matches!(&steps[0], CopyStep::CreateDirAll { path } if path == "out/demo"));
    assert!(matches!(&steps[1], CopyStep::CopyDir { from, to } if from == "/tmp/x/web/src" && to == "out/demo/src"));
    assert!(matches!(&steps[2], CopyStep::CopyFile { from, to } if from == "/tmp/x/web/index.txt" && to == "out/demo/index.txt"));
}

#[test]
fn copy_into_existing_destination_creates_nothing() {
    let steps = copy_dir_recursive("a", "b", true, &io_entries());
    assert_eq!(steps.len(), 2);
    assert!(matches!(&steps[0], CopyStep::CopyDir { from, to } if from == "a/src" && to == "b/src"));
    assert!(copy_dir_recursive("a", "b", true, &Vec::new()).is_empty());
}

#[test]
fn replace_removes_then_creates() {
    let steps = replace_dir_recursive("a", "b", true, &io_entries());
    assert_eq!(steps.len(), 4);
    assert!(matches!(&steps[0], CopyStep::RemoveDirAll { path } if path == "b"));
    assert!(matches!(&steps[1], CopyStep::CreateDirAll { path } if path == "b"));
    assert!(matches!(&steps[3], CopyStep::CopyFile { from, to } if from == "a/index.txt" && to == "b/index.txt"));
    let fresh = replace_dir_recursive("a", "b", false, &Vec::new());
    assert_eq!(fresh.len(), 1);
    assert!(matches!(&fresh[0], CopyStep::CreateDirAll { path } if path == "b"));
}

#[test]
fn paths_are_joined_with_one_separator() {
    assert_eq!(join_path("a", "b"), "a/b");
    assert_eq!(join_path("a/", "b"), "a/b");
    assert_eq!(join_path("", "b"), "b");
    assert_eq!(join_path("a", "/b"), "/b");
    assert_eq!(join_path("a", ""), "a/");
    assert_eq!(join_path(".", "demo"), "./demo");
    let parts = vec!["a".to_string(), "b".to_string(), "c".to_string()];
    assert_eq!(join_parts(&parts), "a/b/c");
    assert_eq!(join_parent(&parts), "a/b");
    assert_eq!(join_parts(&vec!["a".to_string()]), "a");
    assert_eq!(join_parent(&vec!["a".to_string()]), "");
    assert_eq!(join_parts(&Vec::new()), "");
    assert_eq!(join_parent(&Vec::new()), "");
}

#[test]
fn characters_are_found_by_position_not_byte() {
    assert_eq!(find_char("é=x", '='), Some(1));
    assert_eq!(find_char("abc", '='), None);
    assert_eq!(find_char("", '='), None);
    assert_eq!(find_char("a==", '='), Some(1));
    assert!(same_text("abc", "abc"));
    assert!(!same_text("abc", "abd"));
}

#[test]
fn sparse_clone_runs_four_steps_in_order() {
    let steps = git_sparse_clone("https://example.org/r.git", "dev", "web/*", "/tmp/t");
    assert_eq!(steps.len(), 4);
    assert_eq!(steps[0].label, "git clone");
    assert_eq!(steps[0].dir, None);
    assert_eq!(
        steps[0].args,
        vec![
            "clone",
            "--depth",
            "1",
            "--filter=blob:none",
            "--no-checkout",
            "--branch",
            "dev",
            "https://example.org/r.git",
            "/tmp/t"
        ]
    );
    assert_eq!(steps[1].args, vec!["sparse-checkout", "init", "--no-cone"]);
    assert_eq!(steps[1].dir.as_deref(), Some("/tmp/t"));
    assert_eq!(steps[2].args, vec!["sparse-checkout", "set", "--no-cone", "web/*"]);
    assert_eq!(steps[2].dir.as_deref(), Some("/tmp/t"));
    assert_eq!(steps[3].args, vec!["checkout", "dev"]);
    assert_eq!(steps[3].dir.as_deref(), Some("/tmp/t"));
}

#[test]
fn fetch_stops_at_first_failure() {
    assert!(matches!(sparse_fetch_progress(4, 0, true, b""), FetchProgress::Run(1)));
    assert!(matches!(sparse_fetch_progress(4, 2, true, b"noise"), FetchProgress::Run(3)));
    assert!(matches!(sparse_fetch_progress(4, 3, true, b""), FetchProgress::Complete));
    assert!(matches!(sparse_fetch_progress(0, 0, true, b""), FetchProgress::Complete));
    match sparse_fetch_progress(4, 1, false, b"fatal: not a repository\n") {
        FetchProgress::Failed(text) => assert_eq!(text, "fatal: not a repository\n"),
        other => panic!("unexpected progress: {:?}", other),
    }
}

#[test]
fn exit_status_error_is_the_error_stream() {
    assert_eq!(check_exit_status(true, b"warning: ignored"), Ok(()));
    assert_eq!(check_exit_status(false, b"fatal: boom"), Err("fatal: boom".to_string()));
    assert_eq!(check_exit_status(false, b""), Err(String::new()));
    assert_eq!(check_exit_status(false, &[b'a', 0xff, b'b']), Err("a\u{fffd}b".to_string()));
}

#[test]
fn labelled_status_names_the_command() {
    assert_eq!(check_step_status("git init", true, b"x"), Ok(()));
    assert_eq!(
        check_step_status("git pull origin main", false, b"fatal: no remote"),
        Err("\"git pull origin main\" failed: fatal: no remote".to_string())
    );
}

#[test]
fn directory_fetch_runs_six_steps() {
    let fetch = fetch_github_directory("https://example.org/r", "main", "templates/cli@go_1.0.0", "/tmp/s", "out");
    assert_eq!(fetch.steps.len(), 6);
    assert_eq!(fetch.steps[0].args, vec!["init"]);
    assert_eq!(fetch.steps[0].label, "git init");
    assert_eq!(fetch.steps[1].args, vec!["remote", "add", "origin", "https://example.org/r"]);
    assert_eq!(fetch.steps[1].label, "git remote add origin ...");
    assert_eq!(fetch.steps[2].args, vec!["config", "core.sparseCheckout", "true"]);
    assert_eq!(fetch.steps[3].args, vec!["sparse-checkout", "init"]);
    assert_eq!(fetch.steps[4].args, vec!["sparse-checkout", "set", "templates/cli@go_1.0.0"]);
    assert_eq!(fetch.steps[5].args, vec!["pull", "origin", "main"]);
    assert_eq!(fetch.steps[5].label, "git pull origin main");
    for step in &fetch.steps {
        assert_eq!(step.dir.as_deref(), Some("/tmp/s"));
    }
    assert_eq!(fetch.source, "/tmp/s/templates/cli@go_1.0.0");
    assert_eq!(fetch.target, "out");
}

#[test]
fn config_directory_lies_under_the_users() {
    assert_eq!(config_path("/home/u/.config"), "/home/u/.config/tohum");
    assert_eq!(config_path("/home/u/.config/"), "/home/u/.config/tohum");
}
