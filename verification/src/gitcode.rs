//! GitCode payload shapes and their translation onto the canonical model.
//!
//! The provider's endpoints return JSON whose field names and nesting
//! differ from the canonical model, and differ between endpoints: a commit
//! SHA may stand under `sha`, `id`, or a nested `commit.sha`. Translation
//! resolves each logical field through an ordered fallback chain; optional
//! fields default to absent, while a required field missing from every
//! candidate fails with a structured error naming that field.

use vstd::prelude::*;

use crate::encoding::{base64_decode, base64_decoding_of};
use crate::error::{
    body_snippet, missing_field_error, spec_body_snippet, spec_missing_field, VktError,
    VktErrorView,
};
use crate::strutil::spec_starts_with;
use crate::types::{
    Author, Branch, Commit, FileCommitResponse, FileContent, FileInfo, PullRequest,
    PullRequestRef, RepositoryInfo, RepositoryRef,
};

verus! {

/// Flat listing response: the path-list endpoint returns a plain array of
/// path strings.
pub type GitTreeResponse = Vec<String>;

/// Individual tree entry as some endpoints shape it.
#[derive(Debug, Clone)]
pub struct GitTreeItem {
    /// Item path
    pub path: String,
    /// Item mode (e.g., "100644", "040000")
    pub mode: String,
    /// Item type ("blob" for file, "tree" for directory)
    pub item_type: String,
    /// Object SHA
    pub sha: String,
    /// Size in bytes (only for blobs)
    pub size: Option<u64>,
    /// API URL, not always returned
    pub url: Option<String>,
}

/// Git reference response (for creating branches).
#[derive(Debug, Clone)]
pub struct GitRefResponse {
    /// Reference name (e.g., "refs/heads/main")
    pub ref_name: String,
    /// Node ID
    pub node_id: String,
    /// Reference object (commit SHA)
    pub object: GitRefObject,
}

/// Git reference object.
#[derive(Debug, Clone)]
pub struct GitRefObject {
    /// Object type (usually "commit")
    pub object_type: String,
    /// Object SHA
    pub sha: String,
    /// API URL
    pub url: String,
}

/// Branch information response.
#[derive(Debug, Clone)]
pub struct GitCodeBranchResponse {
    /// Branch name
    pub name: String,
    /// Commit information
    pub commit: GitCodeBranchCommitWrapper,
}

/// Wrapper for the commit in a branch response; the provider nests the
/// same logical value differently per endpoint.
#[derive(Debug, Clone)]
pub struct GitCodeBranchCommitWrapper {
    /// Commit SHA, as one endpoint shapes it
    pub id: Option<String>,
    /// Commit message, as one endpoint shapes it
    pub message: Option<String>,
    /// Commit SHA, as another endpoint shapes it
    pub sha: Option<String>,
    /// Nested commit object, as another endpoint shapes it
    pub commit: Option<GitCodeBranchCommit>,
}

/// Commit information nested in a branch response.
#[derive(Debug, Clone)]
pub struct GitCodeBranchCommit {
    /// Commit SHA
    pub sha: Option<String>,
    /// Commit message
    pub message: Option<String>,
    /// Author information
    pub author: Option<GitCodeAuthor>,
    /// Committer information
    pub committer: Option<GitCodeAuthor>,
    /// Parent commit IDs
    pub parent_ids: Vec<String>,
    /// Authored date
    pub authored_date: Option<String>,
}

/// File content response.
#[derive(Debug, Clone)]
pub struct GitCodeContentResponse {
    /// Content type (usually "file")
    pub content_type: String,
    /// File encoding (usually "base64")
    pub encoding: String,
    /// Size in bytes
    pub size: u64,
    /// File name
    pub name: String,
    /// File path
    pub path: String,
    /// Content (Base64 encoded)
    pub content: String,
    /// File SHA
    pub sha: String,
    /// API URL
    pub url: String,
    /// Download URL
    pub download_url: String,
}

/// Commit creation response.
#[derive(Debug, Clone)]
pub struct GitCodeCommitResponse {
    /// Content information, not always returned
    pub content: Option<GitCodeContentInfo>,
    /// Commit details
    pub commit: GitCodeCommitDetail,
}

/// Content info in a commit response.
#[derive(Debug, Clone)]
pub struct GitCodeContentInfo {
    /// File name
    pub name: String,
    /// File path
    pub path: String,
    /// File SHA
    pub sha: String,
    /// Size in bytes
    pub size: Option<u64>,
    /// HTML URL
    pub html_url: String,
}

/// Detailed commit information.
#[derive(Debug, Clone)]
pub struct GitCodeCommitDetail {
    /// Commit SHA
    pub sha: String,
    /// Node ID, not always returned
    pub node_id: Option<String>,
    /// Commit message, not always returned
    pub message: Option<String>,
    /// Author information
    pub author: GitCodeAuthor,
    /// Committer information
    pub committer: GitCodeAuthor,
}

/// Author/committer information.
#[derive(Debug, Clone)]
pub struct GitCodeAuthor {
    /// Name
    pub name: String,
    /// Email
    pub email: String,
    /// Date
    pub date: String,
}

/// Pull request creation response; fields cover both the GitHub-style and
/// the GitLab-style shapes the provider may answer with.
#[derive(Debug, Clone)]
pub struct GitCodePullResponse {
    /// PR number (GitHub-style)
    pub number: Option<u64>,
    /// Node ID (GitHub-style)
    pub node_id: Option<String>,
    /// PR ID (GitLab-style)
    pub id: Option<u64>,
    /// Internal ID (GitLab-style)
    pub iid: Option<u64>,
    /// Project ID (GitLab-style)
    pub project_id: Option<u64>,
    /// PR title; required for translation
    pub title: Option<String>,
    /// PR body/description (GitHub-style)
    pub body: Option<String>,
    /// PR description (GitLab-style)
    pub description: Option<String>,
    /// PR state; required for translation
    pub state: Option<String>,
    /// HTML URL (GitHub-style)
    pub html_url: Option<String>,
    /// Web URL (GitLab-style)
    pub web_url: Option<String>,
    /// Head reference (source branch)
    pub head: Option<GitCodePullRef>,
    /// Base reference (target branch)
    pub base: Option<GitCodePullRef>,
    /// Source branch (GitLab-style)
    pub source_branch: Option<String>,
    /// Target branch (GitLab-style)
    pub target_branch: Option<String>,
    /// User who created the PR
    pub user: Option<GitCodeUser>,
    /// Author (GitLab-style)
    pub author: Option<GitCodeUser>,
}

/// PR head/base reference.
#[derive(Debug, Clone)]
pub struct GitCodePullRef {
    /// Branch label (e.g., "owner:branch")
    pub label: Option<String>,
    /// Branch reference (GitHub-style)
    pub ref_name: Option<String>,
    /// Branch name (GitLab-style)
    pub name: Option<String>,
    /// Commit SHA
    pub sha: String,
    /// Repository info
    pub repo: Option<GitCodeRepoInfo>,
}

/// User information.
#[derive(Debug, Clone)]
pub struct GitCodeUser {
    /// User login/username
    pub login: Option<String>,
    /// User name (alternative to login)
    pub name: Option<String>,
    /// Username (another alternative)
    pub username: Option<String>,
    /// User ID
    pub id: Option<u64>,
    /// Avatar URL
    pub avatar_url: Option<String>,
    /// HTML URL
    pub html_url: Option<String>,
}

/// Repository information as nested in other payloads.
#[derive(Debug, Clone)]
pub struct GitCodeRepoInfo {
    /// Repository ID
    pub id: u64,
    /// Repository name
    pub name: String,
    /// Full name (owner/repo)
    pub full_name: String,
    /// Private flag
    pub private: Option<bool>,
    /// Owner information
    pub owner: Option<GitCodeUser>,
    /// HTML URL
    pub html_url: Option<String>,
    /// Description
    pub description: Option<String>,
    /// Default branch
    pub default_branch: Option<String>,
    /// Clone URL (HTTPS)
    pub clone_url: Option<String>,
    /// SSH URL
    pub ssh_url: Option<String>,
}

/// Repository response.
#[derive(Debug, Clone)]
pub struct GitCodeRepoResponse {
    /// Repository ID
    pub id: u64,
    /// Repository name
    pub name: String,
    /// Full name (owner/repo)
    pub full_name: String,
    /// Private flag
    pub private: bool,
    /// Owner information
    pub owner: GitCodeUser,
    /// HTML URL
    pub html_url: String,
    /// Description
    pub description: Option<String>,
    /// Default branch
    pub default_branch: String,
    /// Clone URL (HTTPS)
    pub clone_url: String,
    /// SSH URL
    pub ssh_url: String,
}

/// Request body for creating a branch.
#[derive(Debug, Clone)]
pub struct CreateBranchRequest {
    /// Branch name (without any refs/heads/ prefix)
    pub branch_name: String,
    /// Source branch name or commit SHA
    pub refs: String,
}

/// Request body for creating or updating a file.
#[derive(Debug, Clone)]
pub struct CreateFileRequest {
    /// Commit message
    pub message: String,
    /// Base64-encoded content
    pub content: String,
    /// Target branch
    pub branch: String,
    /// File SHA: present for an update, absent for a create
    pub sha: Option<String>,
    /// Author name
    pub author_name: Option<String>,
    /// Author email
    pub author_email: Option<String>,
}

/// Committer information for requests.
#[derive(Debug, Clone)]
pub struct GitCodeCommitter {
    /// Committer name
    pub name: String,
    /// Committer email
    pub email: String,
}

/// Request body for creating a pull request.
#[derive(Debug, Clone)]
pub struct CreatePullRequest {
    /// PR title
    pub title: String,
    /// Source branch
    pub head: String,
    /// Target branch
    pub base: String,
    /// PR body, when given
    pub body: Option<String>,
}

/// Request body that names who must approve a pull request.
#[derive(Debug, Clone)]
pub struct RequestReviewers {
    /// Usernames asked to approve
    pub reviewers: Vec<String>,
}

/// The commit SHA a branch response resolves to: `sha` first, then `id`,
/// then the nested commit's `sha`; absent when no candidate is present.
pub open spec fn spec_wrapper_sha(w: GitCodeBranchCommitWrapper) -> Option<String> {
    if w.sha is Some {
        w.sha
    } else if w.id is Some {
        w.id
    } else {
        match w.commit {
            Some(c) => c.sha,
            None => None,
        }
    }
}

/// The commit message a branch response resolves to: the flat field, then
/// the nested commit's, then empty.
pub open spec fn spec_wrapper_message(w: GitCodeBranchCommitWrapper) -> Seq<char> {
    match w.message {
        Some(m) => m@,
        None => match w.commit {
            Some(c) => match c.message {
                Some(m) => m@,
                None => Seq::empty(),
            },
            None => Seq::empty(),
        },
    }
}

/// The authored date a branch response carries, if any.
pub open spec fn spec_wrapper_date(w: GitCodeBranchCommitWrapper) -> Option<String> {
    match w.commit {
        Some(c) => c.authored_date,
        None => None,
    }
}

impl GitCodeBranchResponse {
    /// Translates a branch response onto the canonical model. The commit
    /// SHA is required: when no candidate field carries it, translation
    /// fails, keeping a truncated snippet of the offending payload text
    /// for diagnosability; the message defaults to empty and the
    /// timestamp to absent.
    pub fn to_branch(self, body: &str) -> (r: Result<Branch, VktError>)
        ensures
            r is Ok <==> spec_wrapper_sha(self.commit) is Some,
            r matches Ok(b) ==> {
                &&& b.name == self.name
                &&& Some(b.commit.id) == spec_wrapper_sha(self.commit)
                &&& b.commit.message@ == spec_wrapper_message(self.commit)
                &&& b.commit.author is None
                &&& b.commit.timestamp == spec_wrapper_date(self.commit)
            },
            r matches Err(e) ==> e@ == VktErrorView::Api(
                "Could not extract commit SHA from branch response. Body: "@ + spec_body_snippet(
                    body@,
                ),
            ),
    {
        let GitCodeBranchResponse { name, commit } = self;
        let GitCodeBranchCommitWrapper { id, message, sha, commit: nested } = commit;
        let (nested_sha, nested_message, nested_date): (
            Option<String>,
            Option<String>,
            Option<String>,
        ) = match nested {
            Some(c) => (c.sha, c.message, c.authored_date),
            None => (None, None, None),
        };
        let resolved_sha: Option<String> = match sha {
            Some(s) => Some(s),
            None => match id {
                Some(s) => Some(s),
                None => nested_sha,
            },
        };
        let commit_sha = match resolved_sha {
            Some(s) => s,
            None => {
                let snippet = body_snippet(body);
                return Err(
                    VktError::Api(
                        String::from_str(
                            "Could not extract commit SHA from branch response. Body: ",
                        ).concat(snippet.as_str()),
                    ),
                );
            },
        };
        let commit_message = match message {
            Some(m) => m,
            None => match nested_message {
                Some(m) => m,
                None => String::new(),
            },
        };
        Ok(
            Branch {
                name,
                commit: Commit {
                    id: commit_sha,
                    message: commit_message,
                    author: None,
                    timestamp: nested_date,
                },
            },
        )
    }
}

impl GitRefResponse {
    /// Translates a git reference response onto the canonical model,
    /// stripping a `refs/heads/` prefix from the reference name; the ref
    /// response carries no message, author or timestamp.
    pub fn to_branch(self) -> (r: Branch)
        ensures
            r.name@ == if spec_starts_with(self.ref_name@, "refs/heads/"@) {
                self.ref_name@.skip("refs/heads/"@.len() as int)
            } else {
                self.ref_name@
            },
            r.commit.id == self.object.sha,
            r.commit.message@ == Seq::<char>::empty(),
            r.commit.author is None,
            r.commit.timestamp is None,
    {
        let rn = self.ref_name.as_str();
        let len = rn.unicode_len();
        let name: String = if crate::strutil::starts_with(rn, "refs/heads/") {
            proof {
                reveal_strlit("refs/heads/");
                assert(rn@.subrange("refs/heads/"@.len() as int, len as int) =~= rn@.skip(
                    "refs/heads/"@.len() as int,
                ));
            }
            let plen = "refs/heads/".unicode_len();
            String::from_str(rn.substring_char(plen, len))
        } else {
            String::from_str(rn)
        };
        Branch {
            name,
            commit: Commit {
                id: self.object.sha,
                message: String::new(),
                author: None,
                timestamp: None,
            },
        }
    }
}

impl GitCodeContentResponse {
    /// Translates a content response into file metadata: every field is
    /// carried over, present.
    pub fn to_file_info(self) -> (r: FileInfo)
        ensures
            r.name == Some(self.name),
            r.path == Some(self.path),
            r.size == Some(self.size),
            r.content == Some(self.content),
            r.sha == Some(self.sha),
    {
        FileInfo {
            name: Some(self.name),
            path: Some(self.path),
            size: Some(self.size),
            content: Some(self.content),
            sha: Some(self.sha),
        }
    }

    /// Decodes the Base64 body carried in a content response into the raw
    /// file bytes; invalid Base64 surfaces as a classified error, never a
    /// silent empty result.
    pub fn decode_content(&self) -> (r: Result<Vec<u8>, VktError>)
        ensures
            r is Ok <==> base64_decoding_of(self.content@) is Some,
            r matches Ok(v) ==> Some(v@) == base64_decoding_of(self.content@),
            r matches Err(e) ==> e@ matches VktErrorView::Api(m) && spec_starts_with(
                m,
                "Failed to decode file content: "@,
            ),
    {
        match base64_decode(self.content.as_str()) {
            Ok(v) => Ok(v),
            Err(detail) => {
                let msg = String::from_str("Failed to decode file content: ").concat(
                    detail.as_str(),
                );
                proof {
                    assert(msg@.subrange(0, "Failed to decode file content: "@.len() as int)
                        =~= "Failed to decode file content: "@);
                }
                Err(VktError::Api(msg))
            },
        }
    }
}

impl GitCodeCommitResponse {
    /// Translates a commit creation response onto the canonical model.
    /// When the response carries no content block, the file content falls
    /// back to empty names with the commit's own SHA; the commit's author
    /// and committer are always present in this payload, so the canonical
    /// author is too.
    pub fn to_file_commit_response(self) -> (r: FileCommitResponse)
        ensures
            self.content matches Some(ci) ==> {
                &&& r.content.name == ci.name
                &&& r.content.path == ci.path
                &&& r.content.sha == ci.sha
                &&& r.content.size == ci.size
                &&& r.content.download_url == Some(ci.html_url)
            },
            self.content is None ==> {
                &&& r.content.name@ == Seq::<char>::empty()
                &&& r.content.path@ == Seq::<char>::empty()
                &&& r.content.sha@ == self.commit.sha@
                &&& r.content.size is None
                &&& r.content.download_url matches Some(u) && u@ == Seq::<char>::empty()
            },
            r.commit.id == self.commit.sha,
            r.commit.message@ == match self.commit.message {
                Some(m) => m@,
                None => Seq::<char>::empty(),
            },
            r.commit.author matches Some(a) && a.name == self.commit.author.name && a.email
                == self.commit.author.email && a.date == Some(self.commit.author.date),
            r.commit.timestamp == Some(self.commit.committer.date),
    {
        let GitCodeCommitResponse { content, commit } = self;
        let content_info = match content {
            Some(ci) => ci,
            None => GitCodeContentInfo {
                name: String::new(),
                path: String::new(),
                sha: commit.sha.clone(),
                size: None,
                html_url: String::new(),
            },
        };
        FileCommitResponse {
            content: FileContent {
                name: content_info.name,
                path: content_info.path,
                sha: content_info.sha,
                size: content_info.size,
                download_url: Some(content_info.html_url),
            },
            commit: Commit {
                id: commit.sha,
                message: match commit.message {
                    Some(m) => m,
                    None => String::new(),
                },
                author: Some(
                    Author {
                        name: commit.author.name,
                        email: commit.author.email,
                        date: Some(commit.author.date),
                    },
                ),
                timestamp: Some(commit.committer.date),
            },
        }
    }
}

/// The branch name a pull-request reference resolves to: the explicit
/// reference name first, then the alternate branch-name field, and as a
/// last resort a placeholder built from the commit SHA, so the name is
/// never empty.
pub open spec fn spec_pull_ref_name(h: GitCodePullRef) -> Seq<char> {
    match h.ref_name {
        Some(rn) => rn@,
        None => match h.name {
            Some(n) => n@,
            None => "sha:"@ + h.sha@,
        },
    }
}

/// The PR number a pull response resolves to: the GitHub-style `number`
/// first, then the GitLab-style `iid`, then zero.
pub open spec fn spec_pull_number(pr: GitCodePullResponse) -> u64 {
    match pr.number {
        Some(n) => n,
        None => match pr.iid {
            Some(i) => i,
            None => 0,
        },
    }
}

/// The first present of two optional values.
pub open spec fn first_some(a: Option<String>, b: Option<String>) -> Option<String> {
    if a is Some {
        a
    } else {
        b
    }
}

/// Resolves a pull-request reference to the canonical branch reference.
fn pull_ref_to_ref(h: GitCodePullRef) -> (r: PullRequestRef)
    ensures
        r.ref_branch@ == spec_pull_ref_name(h),
        match h.repo {
            Some(ri) => r.repo matches Some(rr) && rr.full_name == ri.full_name,
            None => r.repo is None,
        },
{
    let GitCodePullRef { label: _, ref_name, name, sha, repo } = h;
    let branch_name: String = match ref_name {
        Some(rn) => rn,
        None => match name {
            Some(n) => n,
            None => String::from_str("sha:").concat(sha.as_str()),
        },
    };
    let repo_ref: Option<RepositoryRef> = match repo {
        Some(ri) => Some(RepositoryRef { full_name: ri.full_name }),
        None => None,
    };
    PullRequestRef { ref_branch: branch_name, repo: repo_ref }
}

impl GitCodePullResponse {
    /// Translates a pull-request response onto the canonical model. Title
    /// and state are required: when either is absent the translation fails
    /// with a structured error naming the missing field and keeping a
    /// truncated snippet of the offending payload text. The number, URL
    /// and body each resolve through their fallback chains; head and base
    /// prefer the explicit reference, fall back to the plain branch-name
    /// fields, and stay absent when neither is given.
    pub fn to_pull_request(self, body: &str) -> (r: Result<PullRequest, VktError>)
        ensures
            r is Ok <==> (self.title is Some && self.state is Some),
            self.title is None ==> (r matches Err(e) && e@ == spec_missing_field(
                "title"@,
                body@,
            )),
            self.title is Some && self.state is None ==> (r matches Err(e) && e@
                == spec_missing_field("state"@, body@)),
            r matches Ok(pr) ==> {
                &&& pr.number == spec_pull_number(self)
                &&& Some(pr.title) == self.title
                &&& pr.html_url == first_some(self.html_url, self.web_url)
                &&& Some(pr.state) == self.state
                &&& pr.body == first_some(self.body, self.description)
                &&& match self.head {
                    Some(h) => pr.head matches Some(hr) && hr.ref_branch@ == spec_pull_ref_name(h)
                        && (match h.repo {
                        Some(ri) => hr.repo matches Some(rr) && rr.full_name == ri.full_name,
                        None => hr.repo is None,
                    }),
                    None => match self.source_branch {
                        Some(sb) => pr.head matches Some(hr) && hr.ref_branch == sb && hr.repo
                            is None,
                        None => pr.head is None,
                    },
                }
                &&& match self.base {
                    Some(b) => pr.base matches Some(br) && br.ref_branch@ == spec_pull_ref_name(b)
                        && (match b.repo {
                        Some(ri) => br.repo matches Some(rr) && rr.full_name == ri.full_name,
                        None => br.repo is None,
                    }),
                    None => match self.target_branch {
                        Some(tb) => pr.base matches Some(br) && br.ref_branch == tb && br.repo
                            is None,
                        None => pr.base is None,
                    },
                }
            },
    {
        let GitCodePullResponse {
            number,
            node_id: _,
            id: _,
            iid,
            project_id: _,
            title,
            body: description_github,
            description,
            state,
            html_url,
            web_url,
            head,
            base,
            source_branch,
            target_branch,
            user: _,
            author: _,
        } = self;
        let title = match title {
            Some(t) => t,
            None => {
                return Err(missing_field_error("title", body));
            },
        };
        let state = match state {
            Some(s) => s,
            None => {
                return Err(missing_field_error("state", body));
            },
        };
        let resolved_number: u64 = match number {
            Some(n) => n,
            None => match iid {
                Some(i) => i,
                None => 0,
            },
        };
        let resolved_url: Option<String> = match html_url {
            Some(u) => Some(u),
            None => web_url,
        };
        let resolved_body: Option<String> = match description_github {
            Some(b) => Some(b),
            None => description,
        };
        let head_info: Option<PullRequestRef> = match head {
            Some(h) => Some(pull_ref_to_ref(h)),
            None => match source_branch {
                Some(sb) => Some(PullRequestRef { ref_branch: sb, repo: None }),
                None => None,
            },
        };
        let base_info: Option<PullRequestRef> = match base {
            Some(b) => Some(pull_ref_to_ref(b)),
            None => match target_branch {
                Some(tb) => Some(PullRequestRef { ref_branch: tb, repo: None }),
                None => None,
            },
        };
        Ok(
            PullRequest {
                number: resolved_number,
                title,
                html_url: resolved_url,
                state,
                head: head_info,
                base: base_info,
                body: resolved_body,
            },
        )
    }
}

impl GitCodeRepoResponse {
    /// Translates a repository response onto the canonical model: every
    /// field carried over, the optional ones present.
    pub fn to_repository_info(self) -> (r: RepositoryInfo)
        ensures
            r.id == self.id,
            r.full_name == self.full_name,
            r.description == self.description,
            r.default_branch == self.default_branch,
            r.private == Some(self.private),
            r.html_url == Some(self.html_url),
            r.clone_url == Some(self.clone_url),
            r.ssh_url == Some(self.ssh_url),
    {
        RepositoryInfo {
            id: self.id,
            full_name: self.full_name,
            description: self.description,
            default_branch: self.default_branch,
            private: Some(self.private),
            html_url: Some(self.html_url),
            clone_url: Some(self.clone_url),
            ssh_url: Some(self.ssh_url),
        }
    }
}

} // verus!
