//! Tests of provider selection, request planning, response handling and
//! the fetch helpers.

use vkt::config::{detect_provider, Config, ProviderType, RemoteConfig, RepoConfig, TemplateConfig, UserConfig};
use vkt::error::{classify_status, VktError};
use vkt::get::{
    dir_from_listing, downloads_all_failed, relative_local_path, summarize_downloads,
    DownloadResult, GetArgs, GetCommand,
};
use vkt::list::sort_items;
use vkt::provider::{
    build_upsert_request, create_provider, file_exists_from_probe, resolve_upsert_sha,
    response_outcome, reviewer_assignment_outcome, upsert_uses_put, ApiClient, GitCodeProvider,
};
use vkt::types::{FileInfo, TreeItem};

fn create_test_config(base_url: String) -> Config {
    Config {
        user: UserConfig {
            name: "Test".to_string(),
            email: "test@example.com".to_string(),
            auto_signoff: true,
        },
        remote: RemoteConfig {
            provider: "Gitcode".to_string(),
            api_url: base_url,
            token: "test-token".to_string(),
        },
        repo: RepoConfig {
            project_id: "owner/repo".to_string(),
            default_branch: "main".to_string(),
        },
        template: TemplateConfig { pr_prefix: String::new() },
    }
}

fn file_info_with_sha(sha: Option<&str>) -> FileInfo {
    FileInfo {
        name: None,
        path: None,
        size: None,
        content: None,
        sha: sha.map(|s| s.to_string()),
    }
}

#[test]
fn test_api_client_new() {
    let config = create_test_config("https://api.example.com".to_string());
    let client = ApiClient::new(&config);
    assert!(client.is_ok());
}

#[test]
fn test_api_error_type() {
    let err = VktError::Api("test error".to_string());
    assert_eq!(err.message(), "API error: test error");
}

#[test]
fn test_error_predicates() {
    assert!(VktError::Network("x".to_string()).is_retryable());
    assert!(VktError::RateLimited("x".to_string()).is_retryable());
    assert!(!VktError::Api("x".to_string()).is_retryable());
    assert!(VktError::AuthInvalid("x".to_string()).is_auth_error());
    assert!(VktError::PermissionDenied("x".to_string()).is_auth_error());
    assert!(!VktError::Conflict("x".to_string()).is_auth_error());
    assert!(VktError::ApiNotFound("x".to_string()).is_not_found());
    assert!(!VktError::Network("x".to_string()).is_not_found());
}

#[test]
fn test_create_provider_gitcode() {
    let config = create_test_config("https://gitcode.com/api/v5".to_string());
    let provider = create_provider(&config);
    assert!(provider.is_ok());
}

#[test]
fn test_create_provider_rejects_other_identifiers() {
    let mut config = create_test_config("https://api.example.com".to_string());
    config.remote.provider = "GitLab".to_string();
    let e = create_provider(&config).unwrap_err();
    assert_eq!(e.message(), "Config error: GitLab provider not yet implemented");

    config.remote.provider = "something".to_string();
    let e = create_provider(&config).unwrap_err();
    assert_eq!(
        e.message(),
        "Config error: Unknown provider: something. Supported providers: GitCode, GitLab, GitHub"
    );
}

#[test]
fn test_provider_type_detection() {
    assert_eq!(detect_provider("https://gitcode.com/api/v5"), ProviderType::GitCode);
    assert_eq!(detect_provider("https://gitlab.example.com/api/v4"), ProviderType::GitLab);
    assert_eq!(detect_provider("https://github.com/api/v3"), ProviderType::GitHub);
}

#[test]
fn test_parse_project_id() {
    let (owner, repo) = GitCodeProvider::parse_project_id("owner/repo").unwrap();
    assert_eq!(owner, "owner");
    assert_eq!(repo, "repo");
    assert!(GitCodeProvider::parse_project_id("plain").is_err());
    assert!(GitCodeProvider::parse_project_id("a/b/c").is_err());
}

#[test]
fn test_provider_new_trims_base_url() {
    let config = create_test_config("https://api.example.com/".to_string());
    let p = GitCodeProvider::new(&config).unwrap();
    assert_eq!(p.base_url, "https://api.example.com");
    assert_eq!(p.owner, "owner");
    assert_eq!(p.repo, "repo");
    assert_eq!(p.default_branch, "main");
    assert_eq!(p.build_url("/repos/x"), "https://api.example.com/repos/x");
}

#[test]
fn test_endpoint_paths_percent_encode_components() {
    let config = create_test_config("https://api.example.com".to_string());
    let p = GitCodeProvider::new(&config).unwrap();
    assert_eq!(p.list_tree_path(None), "repos/owner/repo/file_list");
    assert_eq!(
        p.list_tree_path(Some("feature/x")),
        "repos/owner/repo/file_list?ref_name=feature%2Fx"
    );
    assert_eq!(
        p.contents_path("a b.txt", Some("main")),
        "repos/owner/repo/contents/a%20b.txt?ref=main"
    );
    assert_eq!(
        p.file_exists_path("dir/f.txt", Some("main")),
        "repos/owner/repo/file_list?file_name=dir%2Ff.txt&ref_name=main"
    );
    assert_eq!(p.branches_path(), "repos/owner/repo/branches");
    assert_eq!(p.pulls_path(), "repos/owner/repo/pulls");
    assert_eq!(p.reviewers_path(42), "repos/owner/repo/pulls/42/requested_reviewers");
    assert_eq!(p.repo_path(), "repos/owner/repo");
}

#[test]
fn test_resolve_upsert_sha_prefers_target_branch() {
    let sha = resolve_upsert_sha(
        Ok(file_info_with_sha(Some("t1"))),
        Ok(file_info_with_sha(Some("d1"))),
    )
    .unwrap();
    assert_eq!(sha, Some("t1".to_string()));

    let sha = resolve_upsert_sha(
        Err(VktError::ApiNotFound("x".to_string())),
        Ok(file_info_with_sha(Some("d1"))),
    )
    .unwrap();
    assert_eq!(sha, Some("d1".to_string()));

    // the file counts as new only when both probes report not-found
    let sha = resolve_upsert_sha(
        Err(VktError::ApiNotFound("x".to_string())),
        Err(VktError::ApiNotFound("y".to_string())),
    )
    .unwrap();
    assert_eq!(sha, None);

    assert!(upsert_uses_put(&Some("t1".to_string())));
    assert!(!upsert_uses_put(&None));
}

#[test]
fn test_resolve_upsert_sha_propagates_probe_errors() {
    // a probe failure other than not-found is no valid negative: it
    // propagates unchanged instead of forcing a create
    let e = resolve_upsert_sha(
        Err(VktError::Network("timed out".to_string())),
        Err(VktError::ApiNotFound("y".to_string())),
    )
    .unwrap_err();
    assert_eq!(e.message(), "Network error: timed out");

    let e = resolve_upsert_sha(
        Err(VktError::ApiNotFound("x".to_string())),
        Err(VktError::RateLimited("slow down".to_string())),
    )
    .unwrap_err();
    assert_eq!(e.message(), "Rate limited: slow down");

    let e = resolve_upsert_sha(
        Err(VktError::AuthInvalid("bad token".to_string())),
        Ok(file_info_with_sha(Some("d1"))),
    )
    .unwrap_err();
    assert_eq!(e.message(), "Authentication failed: bad token");
}

#[test]
fn test_build_upsert_request_carries_author() {
    let req = build_upsert_request("msg", "Q0FGRQ==", "feat/x", None, "Ann", "ann@example.com");
    assert_eq!(req.message, "msg");
    assert_eq!(req.content, "Q0FGRQ==");
    assert_eq!(req.branch, "feat/x");
    assert_eq!(req.sha, None);
    assert_eq!(req.author_name, Some("Ann".to_string()));
    assert_eq!(req.author_email, Some("ann@example.com".to_string()));
}

#[test]
fn test_file_exists_from_probe() {
    // a successful probe means the file exists; not-found is the valid
    // negative answer; any other error propagates unchanged
    assert_eq!(file_exists_from_probe(Ok(file_info_with_sha(None))).unwrap(), true);
    assert_eq!(
        file_exists_from_probe(Err(VktError::ApiNotFound("gone".to_string()))).unwrap(),
        false
    );
    let e = file_exists_from_probe(Err(VktError::Network("down".to_string()))).unwrap_err();
    assert_eq!(e.message(), "Network error: down");
}

#[test]
fn test_classify_status_taxonomy() {
    assert_eq!(
        classify_status(401, "bad token").message(),
        "Authentication failed: Authentication failed: bad token"
    );
    assert!(matches!(classify_status(403, "API rate limit hit"), VktError::RateLimited(_)));
    assert!(matches!(classify_status(403, "you shall not pass"), VktError::PermissionDenied(_)));
    assert!(matches!(classify_status(404, "nope"), VktError::ApiNotFound(_)));
    assert!(matches!(classify_status(409, "exists"), VktError::Conflict(_)));
    assert!(matches!(classify_status(429, "rate limit exceeded"), VktError::RateLimited(_)));
    assert!(matches!(classify_status(429, "slow down"), VktError::Api(_)));
    let e = classify_status(500, "boom");
    assert_eq!(e.message(), "API error: API error (HTTP 500): boom");
}

#[test]
fn test_response_outcome() {
    assert_eq!(response_outcome(200, "body".to_string()).unwrap(), "body");
    assert!(response_outcome(404, "gone".to_string()).is_err());
}

#[test]
fn test_reviewer_assignment_always_reports_success() {
    assert!(reviewer_assignment_outcome(Ok(())).is_ok());
    assert!(reviewer_assignment_outcome(Err(VktError::ApiNotFound("x".to_string()))).is_ok());
    assert!(reviewer_assignment_outcome(Err(VktError::Api("x".to_string()))).is_ok());
}

#[test]
fn test_get_file_name() {
    let cmd = GetCommand::new(GetArgs {
        path: "scripts/config.sh".to_string(),
        output: None,
        force: false,
    });
    assert_eq!(cmd.get_file_name("scripts/config.sh"), "config.sh");

    let cmd2 = GetCommand::new(GetArgs {
        path: "README.md".to_string(),
        output: None,
        force: false,
    });
    assert_eq!(cmd2.get_file_name("README.md"), "README.md");
}

#[test]
fn test_get_file_name_with_special_chars() {
    let cmd = GetCommand::new(GetArgs {
        path: "path/to/file-name_v1.0.txt".to_string(),
        output: None,
        force: false,
    });
    assert_eq!(cmd.get_file_name("path/to/file-name_v1.0.txt"), "file-name_v1.0.txt");
}

#[test]
fn test_format_bytes() {
    assert_eq!(GetCommand::format_bytes(500), "500B");
    assert_eq!(GetCommand::format_bytes(1024), "1.0KB");
    assert_eq!(GetCommand::format_bytes(1536), "1.5KB");
    assert_eq!(GetCommand::format_bytes(1024 * 1024), "1.0MB");
}

#[test]
fn test_check_existing_file_respects_force() {
    let cmd = GetCommand::new(GetArgs { path: "a".to_string(), output: None, force: false });
    let e = cmd.check_existing_file(true, "out/a").unwrap_err();
    assert_eq!(
        e.message(),
        "Validation error: File 'out/a' already exists, use -f/--force to overwrite"
    );
    assert!(cmd.check_existing_file(false, "out/a").is_ok());

    let forced = GetCommand::new(GetArgs { path: "a".to_string(), output: None, force: true });
    assert!(forced.check_existing_file(true, "out/a").is_ok());
}

#[test]
fn test_dir_from_listing() {
    let items = vec![vkt::tree::path_to_tree_item("docs/a.md".to_string())];
    assert_eq!(dir_from_listing("docs", Ok(items)).unwrap(), true);
    assert_eq!(dir_from_listing("docs", Ok(Vec::new())).unwrap(), false);
    let e = dir_from_listing("docs", Err(VktError::ApiNotFound("x".to_string()))).unwrap_err();
    assert_eq!(e.message(), "API error: Path 'docs' does not exist or cannot be accessed");
}

#[test]
fn test_relative_local_path() {
    assert_eq!(relative_local_path("docs/deep/a.md", "docs"), "deep/a.md");
    assert_eq!(relative_local_path("other/a.md", "docs"), "other/a.md");
}

#[test]
fn test_summarize_downloads_counts_and_sums() {
    let results = vec![
        DownloadResult { path: "a".to_string(), success: true, size: 100, error: None },
        DownloadResult {
            path: "b".to_string(),
            success: false,
            size: 0,
            error: Some("boom".to_string()),
        },
        DownloadResult { path: "c".to_string(), success: true, size: 50, error: None },
    ];
    let (ok, failed, total) = summarize_downloads(&results);
    assert_eq!(ok, 2);
    assert_eq!(failed, 1);
    assert_eq!(total, 150);
    assert!(!downloads_all_failed(&results));

    let all_bad = vec![DownloadResult {
        path: "a".to_string(),
        success: false,
        size: 0,
        error: Some("boom".to_string()),
    }];
    assert!(downloads_all_failed(&all_bad));
    assert!(!downloads_all_failed(&Vec::new()));
}

fn entry(name: &str, dir: bool) -> TreeItem {
    TreeItem {
        id: "x".to_string(),
        name: name.to_string(),
        item_type: if dir { "tree".to_string() } else { "blob".to_string() },
        path: name.to_string(),
        mode: if dir { "040000".to_string() } else { "100644".to_string() },
    }
}

#[test]
fn test_sort_items_directories_first_then_names() {
    let items = vec![
        entry("zeta.rs", false),
        entry("docs", true),
        entry("alpha.rs", false),
        entry("build", true),
    ];
    let sorted = sort_items(items);
    let names: Vec<&str> = sorted.iter().map(|i| i.name.as_str()).collect();
    assert_eq!(names, vec!["build", "docs", "alpha.rs", "zeta.rs"]);
}

#[test]
fn test_filter_files_drops_directories() {
    let items = vec![entry("docs", true), entry("a.rs", false), entry("b.rs", false)];
    let files = vkt::get::filter_files(items);
    let names: Vec<&str> = files.iter().map(|i| i.name.as_str()).collect();
    assert_eq!(names, vec!["a.rs", "b.rs"]);
}

#[test]
fn test_tree_item_is_dir() {
    let dir_item = TreeItem {
        id: "abc".to_string(),
        name: "src".to_string(),
        item_type: "tree".to_string(),
        path: "src".to_string(),
        mode: "040000".to_string(),
    };
    assert!(dir_item.is_dir());
    assert!(!dir_item.is_file());
}

#[test]
fn test_tree_item_is_file() {
    let file_item = TreeItem {
        id: "def".to_string(),
        name: "main.rs".to_string(),
        item_type: "blob".to_string(),
        path: "src/main.rs".to_string(),
        mode: "100644".to_string(),
    };
    assert!(file_item.is_file());
    assert!(!file_item.is_dir());
}

#[test]
fn test_classify_status_rate_phrasing_is_case_insensitive() {
    assert!(matches!(classify_status(403, "RATE LIMIT EXCEEDED"), VktError::RateLimited(_)));
    assert!(matches!(classify_status(403, "Request Limit reached"), VktError::RateLimited(_)));
}
