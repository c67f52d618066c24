//! Tests of the submission helpers and the pipeline state machine.

use vkt::config::{Config, RemoteConfig, RepoConfig, TemplateConfig, UserConfig};
use vkt::error::VktError;
use vkt::submit::{SubmitAction, SubmitArgs, SubmitCommand, SubmitEvent, SubmitState};
use vkt::types::{Commit, FileInfo, PullRequest};

fn create_test_config() -> Config {
    Config {
        user: UserConfig {
            name: "Test User".to_string(),
            email: "test@example.com".to_string(),
            auto_signoff: true,
        },
        remote: RemoteConfig {
            provider: "Gitcode".to_string(),
            api_url: "https://api.example.com".to_string(),
            token: "test-token".to_string(),
        },
        repo: RepoConfig {
            project_id: "owner/repo".to_string(),
            default_branch: "main".to_string(),
        },
        template: TemplateConfig { pr_prefix: "[TEST]".to_string() },
    }
}

fn create_test_args() -> SubmitArgs {
    SubmitArgs {
        local_path: "./test.sh".to_string(),
        target: "scripts/".to_string(),
        msg: "feat: add test script".to_string(),
        force: false,
        dry_run: false,
        branch: None,
        reviewers: Vec::new(),
    }
}

fn some_file_info() -> FileInfo {
    FileInfo {
        name: Some("test.sh".to_string()),
        path: Some("scripts/test.sh".to_string()),
        size: Some(10),
        content: None,
        sha: Some("abc".to_string()),
    }
}

fn some_pull_request() -> PullRequest {
    PullRequest {
        number: 7,
        title: "[TEST] feat: add test script".to_string(),
        html_url: Some("https://example.com/pr/7".to_string()),
        state: "open".to_string(),
        head: None,
        base: None,
        body: None,
    }
}

#[test]
fn test_generate_branch_name_auto() {
    let args = create_test_args();
    let cmd = SubmitCommand::new(args);
    let branch = cmd.generate_branch_name("feat: add new feature");

    assert!(branch.starts_with("feat/vkt-submit-"));
    assert!(branch.contains("feat"));
}

#[test]
fn test_generate_branch_name_custom() {
    let mut args = create_test_args();
    args.branch = Some("custom/branch".to_string());
    let cmd = SubmitCommand::new(args);
    let branch = cmd.generate_branch_name("feat: test");

    assert_eq!(branch, "custom/branch");
}

#[test]
fn test_generate_file_hash() {
    let content = b"test content";
    let hash = SubmitCommand::generate_file_hash(content);

    assert_eq!(hash.len(), 64); // SHA256 hex length
    assert!(hash.chars().all(|c| c.is_ascii_hexdigit()));
}

#[test]
fn test_generate_file_hash_exact() {
    let hash = SubmitCommand::generate_file_hash(b"test content");
    assert_eq!(hash, "6ae8a75555209fd6c44157c0aed8016e763ff435a19cf186f76863140143ff72");
}

#[test]
fn test_generate_commit_message_with_signoff() {
    let args = create_test_args();
    let cmd = SubmitCommand::new(args);
    let config = create_test_config();
    let msg = cmd.generate_commit_message("feat: test", "./test.sh", "abc123", &config);

    assert!(msg.contains("feat: test"));
    assert!(msg.contains("Original-File: ./test.sh"));
    assert!(msg.contains("Original-File-Hash: abc123"));
    assert!(msg.contains("Signed-off-by: Test User <test@example.com>"));
}

#[test]
fn test_generate_commit_message_without_signoff() {
    let args = create_test_args();
    let cmd = SubmitCommand::new(args);
    let mut config = create_test_config();
    config.user.auto_signoff = false;
    let msg = cmd.generate_commit_message("feat: test", "./test.sh", "abc123", &config);

    assert!(msg.contains("feat: test"));
    assert!(msg.contains("Original-File: ./test.sh"));
    assert!(!msg.contains("Signed-off-by"));
}

#[test]
fn test_generate_pr_body() {
    let args = create_test_args();
    let cmd = SubmitCommand::new(args);
    let config = create_test_config();
    let body = cmd.generate_pr_body("feat: test", "./test.sh", "abc123", &config);

    assert!(body.contains("## Change Description"));
    assert!(body.contains("feat: test"));
    assert!(body.contains("## Trace Information"));
    assert!(body.contains("- Original File: ./test.sh"));
    assert!(body.contains("- File Hash: abc123"));
    assert!(body.contains("- Submitter: Test User <test@example.com>"));
}

#[test]
fn test_branch_name_sanitization() {
    let args = create_test_args();
    let cmd = SubmitCommand::new(args);

    // colons in the message are removed and its slashes dashed
    let branch = cmd.generate_branch_name("feat/fix: something/bug");
    assert!(branch.contains("feat-fix"));
    assert!(!branch.contains(':'));
    // the fixed prefix keeps its own slash
    assert!(branch.starts_with("feat/vkt-submit-"));
}

#[test]
fn test_make_target_path_trims_separator() {
    assert_eq!(vkt::submit::make_target_path("scripts/", "test.sh"), "scripts/test.sh");
    assert_eq!(vkt::submit::make_target_path("scripts", "test.sh"), "scripts/test.sh");
}

#[test]
fn test_pipeline_validates_local_file() {
    let cmd = SubmitCommand::new(create_test_args());
    let config = create_test_config();

    let (state, action) = cmd.step(
        &config,
        SubmitState::Start,
        SubmitEvent::Begin { file_exists: false, file_is_dir: false },
    );
    assert!(matches!(action, SubmitAction::Halt));
    match state {
        SubmitState::Failed { error } => {
            assert_eq!(error.message(), "Validation error: File does not exist: ./test.sh")
        }
        other => panic!("unexpected state: {:?}", other),
    }

    let (state, _) = cmd.step(
        &config,
        SubmitState::Start,
        SubmitEvent::Begin { file_exists: true, file_is_dir: true },
    );
    assert!(matches!(state, SubmitState::Failed { .. }));
}

#[test]
fn test_pipeline_plans_probe_on_target_path() {
    let cmd = SubmitCommand::new(create_test_args());
    let config = create_test_config();
    let (state, action) = cmd.step(
        &config,
        SubmitState::Start,
        SubmitEvent::Begin { file_exists: true, file_is_dir: false },
    );
    match (&state, &action) {
        (
            SubmitState::AwaitingProbe { target_path },
            SubmitAction::ProbeTargetFile { path, reference },
        ) => {
            assert_eq!(target_path, "scripts/test.sh");
            assert_eq!(path, "scripts/test.sh");
            assert_eq!(reference, "main");
        }
        other => panic!("unexpected transition: {:?}", other),
    }
}

#[test]
fn test_pipeline_collision_aborts_without_mutation() {
    // an existing remote file without the overwrite flag aborts with a
    // conflict before any mutating action was emitted
    let cmd = SubmitCommand::new(create_test_args());
    let config = create_test_config();
    let (state, action) = cmd.step(
        &config,
        SubmitState::AwaitingProbe { target_path: "scripts/test.sh".to_string() },
        SubmitEvent::TargetProbed(Ok(some_file_info())),
    );
    assert!(matches!(action, SubmitAction::Halt));
    match state {
        SubmitState::Failed { error } => {
            assert!(matches!(error, VktError::Conflict(_)));
            assert_eq!(
                error.message(),
                "Resource conflict: Remote file already exists: scripts/test.sh. Use --force to overwrite"
            );
        }
        other => panic!("unexpected state: {:?}", other),
    }
}

#[test]
fn test_pipeline_collision_forced_proceeds() {
    let mut args = create_test_args();
    args.force = true;
    let cmd = SubmitCommand::new(args);
    let config = create_test_config();
    let (state, action) = cmd.step(
        &config,
        SubmitState::AwaitingProbe { target_path: "scripts/test.sh".to_string() },
        SubmitEvent::TargetProbed(Ok(some_file_info())),
    );
    assert!(matches!(state, SubmitState::AwaitingTree { .. }));
    match action {
        SubmitAction::ListRootTree { reference } => assert_eq!(reference, "main"),
        other => panic!("unexpected action: {:?}", other),
    }
}

#[test]
fn test_pipeline_missing_remote_file_proceeds() {
    let cmd = SubmitCommand::new(create_test_args());
    let config = create_test_config();
    let (state, _) = cmd.step(
        &config,
        SubmitState::AwaitingProbe { target_path: "scripts/test.sh".to_string() },
        SubmitEvent::TargetProbed(Err(VktError::ApiNotFound("no file".to_string()))),
    );
    assert!(matches!(state, SubmitState::AwaitingTree { .. }));
}

#[test]
fn test_pipeline_probe_error_propagates_verbatim() {
    let cmd = SubmitCommand::new(create_test_args());
    let config = create_test_config();
    let (state, _) = cmd.step(
        &config,
        SubmitState::AwaitingProbe { target_path: "scripts/test.sh".to_string() },
        SubmitEvent::TargetProbed(Err(VktError::Network("timed out".to_string()))),
    );
    match state {
        SubmitState::Failed { error } => {
            assert_eq!(error.message(), "Network error: timed out")
        }
        other => panic!("unexpected state: {:?}", other),
    }
}

#[test]
fn test_pipeline_empty_listing_is_fatal_not_retryable() {
    // an empty root listing means an uninitialized repository: a fatal
    // precondition failure, not something to retry
    let cmd = SubmitCommand::new(create_test_args());
    let config = create_test_config();
    let (state, action) = cmd.step(
        &config,
        SubmitState::AwaitingTree { target_path: "scripts/test.sh".to_string() },
        SubmitEvent::TreeListed(Ok(Vec::new())),
    );
    assert!(matches!(action, SubmitAction::Halt));
    match state {
        SubmitState::Failed { error } => {
            assert!(!error.is_retryable());
            assert!(matches!(error, VktError::Validation(_)));
            assert_eq!(
                error.message(),
                "Validation error: Repository not initialized. Please create a README file via web UI first."
            );
        }
        other => panic!("unexpected state: {:?}", other),
    }
}

#[test]
fn test_pipeline_dry_run_stops_after_planning() {
    let mut args = create_test_args();
    args.dry_run = true;
    let cmd = SubmitCommand::new(args);
    let config = create_test_config();
    let listing = vec![vkt::tree::path_to_tree_item("README.md".to_string())];
    let (state, action) = cmd.step(
        &config,
        SubmitState::AwaitingTree { target_path: "scripts/test.sh".to_string() },
        SubmitEvent::TreeListed(Ok(listing)),
    );
    assert!(matches!(action, SubmitAction::Halt));
    match state {
        SubmitState::DryRunReported { target_path, branch } => {
            assert_eq!(target_path, "scripts/test.sh");
            assert!(branch.starts_with("feat/vkt-submit-"));
        }
        other => panic!("unexpected state: {:?}", other),
    }
}

#[test]
fn test_pipeline_upload_carries_encoded_content() {
    let cmd = SubmitCommand::new(create_test_args());
    let config = create_test_config();
    let (state, action) = cmd.step(
        &config,
        SubmitState::AwaitingFile {
            target_path: "scripts/test.sh".to_string(),
            branch: "feat/x".to_string(),
        },
        SubmitEvent::FileRead(Ok(b"hello".to_vec())),
    );
    match state {
        SubmitState::AwaitingUpload { content_hash, .. } => {
            assert_eq!(content_hash.len(), 64);
        }
        other => panic!("unexpected state: {:?}", other),
    }
    match action {
        SubmitAction::UploadFile { path, content_base64, branch, message, author_name, author_email } => {
            assert_eq!(path, "scripts/test.sh");
            assert_eq!(content_base64, "aGVsbG8=");
            assert_eq!(branch, "feat/x");
            assert!(message.contains("feat: add test script"));
            assert_eq!(author_name, "Test User");
            assert_eq!(author_email, "test@example.com");
        }
        other => panic!("unexpected action: {:?}", other),
    }
}

#[test]
fn test_pipeline_opens_pull_request_with_prefixed_title() {
    let cmd = SubmitCommand::new(create_test_args());
    let config = create_test_config();
    let uploaded = vkt::types::FileCommitResponse {
        content: vkt::types::FileContent {
            name: "test.sh".to_string(),
            path: "scripts/test.sh".to_string(),
            sha: "abc".to_string(),
            size: Some(5),
            download_url: None,
        },
        commit: Commit {
            id: "c1".to_string(),
            message: "m".to_string(),
            author: None,
            timestamp: None,
        },
    };
    let (_, action) = cmd.step(
        &config,
        SubmitState::AwaitingUpload {
            target_path: "scripts/test.sh".to_string(),
            branch: "feat/x".to_string(),
            content_hash: "abc123".to_string(),
        },
        SubmitEvent::FileUploaded(Ok(uploaded)),
    );
    match action {
        SubmitAction::OpenPullRequest { title, head, base, body } => {
            assert_eq!(title, "[TEST] feat: add test script");
            assert_eq!(head, "feat/x");
            assert_eq!(base, "main");
            assert!(body.contains("- File Hash: abc123"));
        }
        other => panic!("unexpected action: {:?}", other),
    }
}

#[test]
fn test_pipeline_reviewer_assignment_failure_still_succeeds() {
    // an unsupported approver endpoint degrades, never failing the
    // submission that already created the pull request
    let mut args = create_test_args();
    args.reviewers = vec!["alice".to_string()];
    let cmd = SubmitCommand::new(args);
    let config = create_test_config();

    let (state, action) = cmd.step(
        &config,
        SubmitState::AwaitingPullRequest {
            target_path: "scripts/test.sh".to_string(),
            branch: "feat/x".to_string(),
            content_hash: "abc123".to_string(),
        },
        SubmitEvent::PullRequestOpened(Ok(some_pull_request())),
    );
    match &action {
        SubmitAction::AssignReviewers { pr_number, reviewers } => {
            assert_eq!(*pr_number, 7);
            assert_eq!(reviewers, &vec!["alice".to_string()]);
        }
        other => panic!("unexpected action: {:?}", other),
    }

    let (state, action) = cmd.step(
        &config,
        state,
        SubmitEvent::ReviewersAssigned(Err(VktError::ApiNotFound("unsupported".to_string()))),
    );
    assert!(matches!(action, SubmitAction::Halt));
    match state {
        SubmitState::Succeeded { pr } => assert_eq!(pr.number, 7),
        other => panic!("unexpected state: {:?}", other),
    }
}

#[test]
fn test_pipeline_success_without_reviewers() {
    let cmd = SubmitCommand::new(create_test_args());
    let config = create_test_config();
    let (state, action) = cmd.step(
        &config,
        SubmitState::AwaitingPullRequest {
            target_path: "scripts/test.sh".to_string(),
            branch: "feat/x".to_string(),
            content_hash: "abc123".to_string(),
        },
        SubmitEvent::PullRequestOpened(Ok(some_pull_request())),
    );
    assert!(matches!(action, SubmitAction::Halt));
    assert!(matches!(state, SubmitState::Succeeded { .. }));
}

#[test]
fn test_format_branch_name_exact() {
    assert_eq!(
        vkt::submit::format_branch_name("feat: add new feature", 1700000000),
        "feat/vkt-submit-1700000000-feat"
    );
    assert_eq!(
        vkt::submit::format_branch_name("Fix/It: now", -5),
        "feat/vkt-submit--5-fix-it"
    );
    assert_eq!(vkt::submit::format_branch_name("   ", 3), "feat/vkt-submit-3-submit");
}
