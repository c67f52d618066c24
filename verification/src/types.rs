//! Canonical data model.
//!
//! Provider-independent value types that every provider implementation
//! must produce: tree entries, branches, commits, file metadata, pull
//! requests and repository metadata, plus the request bodies the write
//! operations send. All are immutable values exchanged by copy.

use vstd::prelude::*;

use crate::strutil::{spec_starts_with, starts_with, str_eq};

verus! {

/// Repository tree entry.
#[derive(Debug, Clone)]
pub struct TreeItem {
    /// Item ID (blob or tree SHA)
    pub id: String,
    /// Item name
    pub name: String,
    /// Item type ("blob" for file, "tree" for directory)
    pub item_type: String,
    /// Full path, never carrying a trailing separator
    pub path: String,
    /// File mode (e.g., "100644" for a regular file)
    pub mode: String,
}

/// Ghost image of a `TreeItem`: its five fields as character sequences.
pub ghost struct TreeItemView {
    pub id: Seq<char>,
    pub name: Seq<char>,
    pub item_type: Seq<char>,
    pub path: Seq<char>,
    pub mode: Seq<char>,
}

impl View for TreeItem {
    type V = TreeItemView;

    open spec fn view(&self) -> TreeItemView {
        TreeItemView {
            id: self.id@,
            name: self.name@,
            item_type: self.item_type@,
            path: self.path@,
            mode: self.mode@,
        }
    }
}

impl TreeItemView {
    /// Directory test on the ghost image: the authoritative type tag, or a
    /// directory permission class.
    pub open spec fn spec_is_dir(self) -> bool {
        self.item_type == "tree"@ || (self.mode.len() > 0 && self.mode[0] == '4')
    }

    /// File test on the ghost image: the authoritative type tag, or a
    /// regular-file permission class.
    pub open spec fn spec_is_file(self) -> bool {
        self.item_type == "blob"@ || spec_starts_with(self.mode, "100"@)
    }
}

impl TreeItem {
    /// Check if this is a directory
    pub fn is_dir(&self) -> (r: bool)
        ensures
            r == self@.spec_is_dir(),
    {
        if str_eq(self.item_type.as_str(), "tree") {
            proof {
                reveal_strlit("tree");
            }
            return true;
        }
        let mode = self.mode.as_str();
        let len = mode.unicode_len();
        proof {
            reveal_strlit("tree");
        }
        len > 0 && mode.get_char(0) == '4'
    }

    /// Check if this is a file
    pub fn is_file(&self) -> (r: bool)
        ensures
            r == self@.spec_is_file(),
    {
        if str_eq(self.item_type.as_str(), "blob") {
            proof {
                reveal_strlit("blob");
            }
            return true;
        }
        proof {
            reveal_strlit("blob");
        }
        starts_with(self.mode.as_str(), "100")
    }
}

/// Branch information.
#[derive(Debug, Clone)]
pub struct Branch {
    /// Branch name
    pub name: String,
    /// Latest commit on this branch
    pub commit: Commit,
}

/// Commit metadata. Author and timestamp are best effort: their absence
/// never fails a translation.
#[derive(Debug, Clone)]
pub struct Commit {
    /// Commit SHA
    pub id: String,
    /// Commit message
    pub message: String,
    /// Author information, when the payload carried it
    pub author: Option<Author>,
    /// Commit timestamp, when the payload carried it
    pub timestamp: Option<String>,
}

/// Author/committer information.
#[derive(Debug, Clone)]
pub struct Author {
    /// Author name
    pub name: String,
    /// Author email
    pub email: String,
    /// Commit date, when the payload carried it
    pub date: Option<String>,
}

/// File metadata. The `sha` is the concurrency token that disambiguates
/// create from update; its absence is the signal that the file does not
/// exist yet.
#[derive(Debug, Clone)]
pub struct FileInfo {
    /// File name
    pub name: Option<String>,
    /// File path
    pub path: Option<String>,
    /// File size in bytes
    pub size: Option<u64>,
    /// File content (Base64 encoded, if requested)
    pub content: Option<String>,
    /// File SHA
    pub sha: Option<String>,
}

/// File content metadata.
#[derive(Debug, Clone)]
pub struct FileContent {
    /// File name
    pub name: String,
    /// File path
    pub path: String,
    /// File SHA
    pub sha: String,
    /// File size in bytes
    pub size: Option<u64>,
    /// Download URL
    pub download_url: Option<String>,
}

/// File creation/update response.
#[derive(Debug, Clone)]
pub struct FileCommitResponse {
    /// File content information
    pub content: FileContent,
    /// Commit information
    pub commit: Commit,
}

/// Pull request information.
#[derive(Debug, Clone)]
pub struct PullRequest {
    /// PR number, provider-assigned and unique per repository
    pub number: u64,
    /// PR title
    pub title: String,
    /// PR URL (web)
    pub html_url: Option<String>,
    /// PR state (open, closed, merged)
    pub state: String,
    /// Source branch
    pub head: Option<PullRequestRef>,
    /// Target branch
    pub base: Option<PullRequestRef>,
    /// PR body/description
    pub body: Option<String>,
}

/// Pull request branch reference.
#[derive(Debug, Clone)]
pub struct PullRequestRef {
    /// Branch name
    pub ref_branch: String,
    /// Repository reference, for cross-repository pull requests
    pub repo: Option<RepositoryRef>,
}

/// Repository reference (for cross-repo PRs).
#[derive(Debug, Clone)]
pub struct RepositoryRef {
    /// Repository full name (owner/repo)
    pub full_name: String,
}

/// Repository metadata.
#[derive(Debug, Clone)]
pub struct RepositoryInfo {
    /// Repository ID
    pub id: u64,
    /// Repository full name (owner/repo)
    pub full_name: String,
    /// Repository description
    pub description: Option<String>,
    /// Default branch
    pub default_branch: String,
    /// Is repository private
    pub private: Option<bool>,
    /// Repository web URL
    pub html_url: Option<String>,
    /// Clone URL (HTTPS)
    pub clone_url: Option<String>,
    /// Clone URL (SSH)
    pub ssh_url: Option<String>,
}

/// Create branch request.
#[derive(Debug, Clone)]
pub struct CreateBranchRequest {
    /// New branch name
    pub branch_name: String,
    /// Source ref (branch or commit SHA)
    pub ref_branch: String,
}

/// Create or update file request.
#[derive(Debug, Clone)]
pub struct CreateOrUpdateFileRequest {
    /// Commit message
    pub message: String,
    /// Base64-encoded content
    pub content: String,
    /// Target branch
    pub branch: String,
    /// Committer info, when given
    pub committer: Option<CommitterInfo>,
    /// File SHA: present for an update, absent for a create
    pub sha: Option<String>,
}

/// Committer information.
#[derive(Debug, Clone)]
pub struct CommitterInfo {
    /// Committer name
    pub name: String,
    /// Committer email
    pub email: String,
}

/// Create pull request request.
#[derive(Debug, Clone)]
pub struct CreatePullRequestRequest {
    /// PR title
    pub title: String,
    /// Source branch
    pub head: String,
    /// Target branch
    pub base: String,
    /// PR body, when given
    pub body: Option<String>,
}

/// Request that names who must approve a pull request.
#[derive(Debug, Clone)]
pub struct AssignReviewersRequest {
    /// Usernames asked to approve
    pub reviewers: Vec<String>,
}

} // verus!
