//! Tests of the response translations onto the canonical model.

use vkt::gitcode::{
    GitCodeAuthor, GitCodeBranchCommit, GitCodeBranchCommitWrapper, GitCodeBranchResponse,
    GitCodeCommitDetail, GitCodeCommitResponse, GitCodeContentInfo, GitCodeContentResponse,
    GitCodePullRef, GitCodePullResponse, GitCodeRepoResponse, GitCodeUser, GitRefObject,
    GitRefResponse,
};

fn author(name: &str) -> GitCodeAuthor {
    GitCodeAuthor {
        name: name.to_string(),
        email: format!("{}@example.com", name),
        date: "2024-05-01T10:00:00Z".to_string(),
    }
}

fn empty_wrapper() -> GitCodeBranchCommitWrapper {
    GitCodeBranchCommitWrapper { id: None, message: None, sha: None, commit: None }
}

fn pull_response() -> GitCodePullResponse {
    GitCodePullResponse {
        number: None,
        node_id: None,
        id: Some(900),
        iid: Some(12),
        project_id: Some(3),
        title: Some("Test PR".to_string()),
        body: None,
        description: Some("from the other shape".to_string()),
        state: Some("open".to_string()),
        html_url: None,
        web_url: Some("https://example.com/pr/12".to_string()),
        head: None,
        base: None,
        source_branch: Some("feat/x".to_string()),
        target_branch: Some("main".to_string()),
        user: None,
        author: None,
    }
}

#[test]
fn test_branch_translation_flat_sha_wins() {
    let resp = GitCodeBranchResponse {
        name: "feat/x".to_string(),
        commit: GitCodeBranchCommitWrapper {
            id: Some("id1".to_string()),
            message: Some("flat".to_string()),
            sha: Some("sha1".to_string()),
            commit: Some(GitCodeBranchCommit {
                sha: Some("nested".to_string()),
                message: Some("nested msg".to_string()),
                author: None,
                committer: None,
                parent_ids: Vec::new(),
                authored_date: Some("2024-05-01".to_string()),
            }),
        },
    };
    let b = resp.to_branch("{}").unwrap();
    assert_eq!(b.name, "feat/x");
    assert_eq!(b.commit.id, "sha1");
    assert_eq!(b.commit.message, "flat");
    assert_eq!(b.commit.timestamp, Some("2024-05-01".to_string()));
}

#[test]
fn test_branch_translation_falls_back_to_nested_sha() {
    let resp = GitCodeBranchResponse {
        name: "feat/x".to_string(),
        commit: GitCodeBranchCommitWrapper {
            id: None,
            message: None,
            sha: None,
            commit: Some(GitCodeBranchCommit {
                sha: Some("nested".to_string()),
                message: Some("nested msg".to_string()),
                author: None,
                committer: None,
                parent_ids: Vec::new(),
                authored_date: None,
            }),
        },
    };
    let b = resp.to_branch("{}").unwrap();
    assert_eq!(b.commit.id, "nested");
    assert_eq!(b.commit.message, "nested msg");
    assert_eq!(b.commit.timestamp, None);
}

#[test]
fn test_branch_translation_missing_sha_fails_with_snippet() {
    let resp = GitCodeBranchResponse { name: "feat/x".to_string(), commit: empty_wrapper() };
    let e = resp.to_branch("{\"name\":\"feat/x\"}").unwrap_err();
    assert_eq!(
        e.message(),
        "API error: Could not extract commit SHA from branch response. Body: {\"name\":\"feat/x\"}"
    );
}

#[test]
fn test_ref_translation_strips_heads_prefix() {
    let resp = GitRefResponse {
        ref_name: "refs/heads/feat/x".to_string(),
        node_id: "n".to_string(),
        object: GitRefObject {
            object_type: "commit".to_string(),
            sha: "abc".to_string(),
            url: "u".to_string(),
        },
    };
    let b = resp.to_branch();
    assert_eq!(b.name, "feat/x");
    assert_eq!(b.commit.id, "abc");
    assert_eq!(b.commit.message, "");
}

fn content_response(content: &str) -> GitCodeContentResponse {
    GitCodeContentResponse {
        content_type: "file".to_string(),
        encoding: "base64".to_string(),
        size: 5,
        name: "a.txt".to_string(),
        path: "docs/a.txt".to_string(),
        content: content.to_string(),
        sha: "s1".to_string(),
        url: "u".to_string(),
        download_url: "d".to_string(),
    }
}

#[test]
fn test_content_translation_to_file_info() {
    let info = content_response("aGVsbG8=").to_file_info();
    assert_eq!(info.name, Some("a.txt".to_string()));
    assert_eq!(info.path, Some("docs/a.txt".to_string()));
    assert_eq!(info.size, Some(5));
    assert_eq!(info.sha, Some("s1".to_string()));
}

#[test]
fn test_content_decoding() {
    let bytes = content_response("aGVsbG8=").decode_content().unwrap();
    assert_eq!(bytes, b"hello");
    let e = content_response("!!! not base64 !!!").decode_content().unwrap_err();
    assert!(e.message().starts_with("API error: Failed to decode file content: "));
}

#[test]
fn test_commit_translation_with_content_block() {
    let resp = GitCodeCommitResponse {
        content: Some(GitCodeContentInfo {
            name: "a.txt".to_string(),
            path: "docs/a.txt".to_string(),
            sha: "filesha".to_string(),
            size: Some(5),
            html_url: "https://example.com/a.txt".to_string(),
        }),
        commit: GitCodeCommitDetail {
            sha: "commitsha".to_string(),
            node_id: None,
            message: Some("msg".to_string()),
            author: author("ann"),
            committer: author("bob"),
        },
    };
    let fc = resp.to_file_commit_response();
    assert_eq!(fc.content.sha, "filesha");
    assert_eq!(fc.content.download_url, Some("https://example.com/a.txt".to_string()));
    assert_eq!(fc.commit.id, "commitsha");
    assert_eq!(fc.commit.message, "msg");
    assert_eq!(fc.commit.author.as_ref().unwrap().name, "ann");
    assert_eq!(fc.commit.timestamp, Some("2024-05-01T10:00:00Z".to_string()));
}

#[test]
fn test_commit_translation_without_content_block() {
    // a missing optional block must not fail: the file content falls
    // back to the commit's own SHA and empty names
    let resp = GitCodeCommitResponse {
        content: None,
        commit: GitCodeCommitDetail {
            sha: "commitsha".to_string(),
            node_id: None,
            message: None,
            author: author("ann"),
            committer: author("bob"),
        },
    };
    let fc = resp.to_file_commit_response();
    assert_eq!(fc.content.name, "");
    assert_eq!(fc.content.sha, "commitsha");
    assert_eq!(fc.commit.message, "");
}

#[test]
fn test_pull_translation_gitlab_shape() {
    // optional fields missing from the GitHub shape resolve through the
    // GitLab-style fallbacks without failing
    let pr = pull_response().to_pull_request("{}").unwrap();
    assert_eq!(pr.number, 12);
    assert_eq!(pr.title, "Test PR");
    assert_eq!(pr.state, "open");
    assert_eq!(pr.html_url, Some("https://example.com/pr/12".to_string()));
    assert_eq!(pr.body, Some("from the other shape".to_string()));
    assert_eq!(pr.head.as_ref().unwrap().ref_branch, "feat/x");
    assert_eq!(pr.base.as_ref().unwrap().ref_branch, "main");
}

#[test]
fn test_pull_translation_missing_title_names_field_with_snippet() {
    let mut resp = pull_response();
    resp.title = None;
    let e = resp.to_pull_request("{\"iid\":12}").unwrap_err();
    assert_eq!(
        e.message(),
        "API error: Response payload missing required field: title. Body: {\"iid\":12}"
    );

    let mut resp = pull_response();
    resp.state = None;
    let e = resp.to_pull_request("{\"iid\":12}").unwrap_err();
    assert_eq!(
        e.message(),
        "API error: Response payload missing required field: state. Body: {\"iid\":12}"
    );
}

#[test]
fn test_pull_translation_missing_field_truncates_long_body() {
    let mut resp = pull_response();
    resp.title = None;
    let long_body = "x".repeat(300);
    let e = resp.to_pull_request(&long_body).unwrap_err();
    let expected = format!(
        "API error: Response payload missing required field: title. Body: {}...",
        "x".repeat(200)
    );
    assert_eq!(e.message(), expected);
}

#[test]
fn test_pull_translation_head_placeholder_from_sha() {
    // a head reference with neither name field synthesizes a
    // sha-prefixed placeholder, so the branch name is never empty
    let mut resp = pull_response();
    resp.head = Some(GitCodePullRef {
        label: None,
        ref_name: None,
        name: None,
        sha: "deadbeef".to_string(),
        repo: None,
    });
    let pr = resp.to_pull_request("{}").unwrap();
    assert_eq!(pr.head.as_ref().unwrap().ref_branch, "sha:deadbeef");
}

#[test]
fn test_repo_translation() {
    let resp = GitCodeRepoResponse {
        id: 5,
        name: "repo".to_string(),
        full_name: "owner/repo".to_string(),
        private: true,
        owner: GitCodeUser {
            login: Some("owner".to_string()),
            name: None,
            username: None,
            id: None,
            avatar_url: None,
            html_url: None,
        },
        html_url: "https://example.com/owner/repo".to_string(),
        description: None,
        default_branch: "main".to_string(),
        clone_url: "https://example.com/owner/repo.git".to_string(),
        ssh_url: "git@example.com:owner/repo.git".to_string(),
    };
    let info = resp.to_repository_info();
    assert_eq!(info.id, 5);
    assert_eq!(info.full_name, "owner/repo");
    assert_eq!(info.default_branch, "main");
    assert_eq!(info.private, Some(true));
}
