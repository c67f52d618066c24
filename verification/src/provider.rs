//! Provider selection and the GitCode provider's request planning.
//!
//! The factory turns the configured provider identifier into a concrete
//! provider; an unrecognized or not-yet-supported identifier is a
//! configuration-time error, never a runtime one. The provider itself
//! holds the validated connection data and plans every request: endpoint
//! paths with percent-encoded components, request bodies, the SHA
//! negotiation that disambiguates create from update, and the
//! existence-probe decisions. Sending the planned requests over HTTP
//! happens outside this crate; the answers come back through the
//! translations and decisions here.

use vstd::prelude::*;

use crate::config::Config;
use crate::encoding::{url_encode, url_encoding_of};
use crate::error::{spec_classify_status, spec_is_success_status, classify_status, VktError,
    VktErrorView};
use crate::gitcode::{CreateBranchRequest, CreateFileRequest, CreatePullRequest, RequestReviewers};
use crate::strutil::{
    dec_digits, has_single_char, lower_seq, split_at_unique_char, split_first_part,
    split_second_part, trim_end_char, trim_leading, trim_start_char, trim_trailing, u64_to_string,
};
use crate::types::FileInfo;

verus! {

/// GitCode API provider: the validated connection data every request is
/// planned from.
#[derive(Debug, Clone)]
pub struct GitCodeProvider {
    /// Base API URL, without a trailing separator
    pub base_url: String,
    /// API token
    pub token: String,
    /// Repository owner
    pub owner: String,
    /// Repository name
    pub repo: String,
    /// Default branch name
    pub default_branch: String,
}

/// The error reported for a project ID that is not `owner/repo`.
pub open spec fn spec_bad_project_id_error() -> VktErrorView {
    VktErrorView::Config("Project ID format should be 'owner/repo'"@)
}

impl GitCodeProvider {
    /// Parse a project ID in "owner/repo" format.
    pub fn parse_project_id(project_id: &str) -> (r: Result<(String, String), VktError>)
        ensures
            match r {
                Ok(parts) => has_single_char(project_id@, '/') && parts.0@ == split_first_part(
                    project_id@,
                    '/',
                ) && parts.1@ == split_second_part(project_id@, '/'),
                Err(e) => !has_single_char(project_id@, '/') && e@ == spec_bad_project_id_error(),
            },
    {
        match split_at_unique_char(project_id, '/') {
            Some((owner, repo)) => Ok((String::from_str(owner), String::from_str(repo))),
            None => Err(
                VktError::Config(String::from_str("Project ID format should be 'owner/repo'")),
            ),
        }
    }

    /// Create a new GitCode provider from configuration: the project ID
    /// must be `owner/repo`, and a trailing separator on the API URL is
    /// dropped.
    pub fn new(config: &Config) -> (r: Result<GitCodeProvider, VktError>)
        ensures
            match r {
                Ok(p) => {
                    &&& has_single_char(config.repo.project_id@, '/')
                    &&& p.owner@ == split_first_part(config.repo.project_id@, '/')
                    &&& p.repo@ == split_second_part(config.repo.project_id@, '/')
                    &&& p.base_url@ == trim_trailing(config.remote.api_url@, '/')
                    &&& p.token@ == config.remote.token@
                    &&& p.default_branch@ == config.repo.default_branch@
                },
                Err(e) => !has_single_char(config.repo.project_id@, '/') && e@
                    == spec_bad_project_id_error(),
            },
    {
        let parts = match Self::parse_project_id(config.repo.project_id.as_str()) {
            Ok(p) => p,
            Err(e) => {
                return Err(e);
            },
        };
        let (owner, repo) = parts;
        Ok(
            GitCodeProvider {
                base_url: String::from_str(trim_end_char(config.remote.api_url.as_str(), '/')),
                token: config.remote.token.clone(),
                owner,
                repo,
                default_branch: config.repo.default_branch.clone(),
            },
        )
    }

    /// The full URL of an API path: the base URL, one separator, and the
    /// path with its leading separators dropped.
    pub fn build_url(&self, path: &str) -> (r: String)
        ensures
            r@ == self.base_url@ + "/"@ + trim_leading(path@, '/'),
    {
        String::from_str(self.base_url.as_str()).concat("/").concat(trim_start_char(path, '/'))
    }

    /// The shared `repos/{owner}/{repo}` prefix of every endpoint.
    fn repo_prefix(&self) -> (r: String)
        ensures
            r@ == "repos/"@ + self.owner@ + "/"@ + self.repo@,
    {
        String::from_str("repos/").concat(self.owner.as_str()).concat("/").concat(
            self.repo.as_str(),
        )
    }

    /// The endpoint that lists every path of the repository, optionally
    /// scoped to a ref.
    pub fn list_tree_path(&self, ref_branch: Option<&str>) -> (r: String)
        ensures
            match ref_branch {
                None => r@ == "repos/"@ + self.owner@ + "/"@ + self.repo@ + "/file_list"@,
                Some(b) => r@ == "repos/"@ + self.owner@ + "/"@ + self.repo@ + "/file_list"@
                    + "?ref_name="@ + url_encoding_of(b@),
            },
    {
        let base = self.repo_prefix().concat("/file_list");
        match ref_branch {
            None => base,
            Some(b) => {
                let enc = url_encode(b);
                base.concat("?ref_name=").concat(enc.as_str())
            },
        }
    }

    /// The endpoint of one file's content or metadata, optionally scoped
    /// to a ref; the file path travels percent-encoded.
    pub fn contents_path(&self, file_path: &str, ref_branch: Option<&str>) -> (r: String)
        ensures
            match ref_branch {
                None => r@ == "repos/"@ + self.owner@ + "/"@ + self.repo@ + "/contents/"@
                    + url_encoding_of(file_path@),
                Some(b) => r@ == "repos/"@ + self.owner@ + "/"@ + self.repo@ + "/contents/"@
                    + url_encoding_of(file_path@) + "?ref="@ + url_encoding_of(b@),
            },
    {
        let enc = url_encode(file_path);
        let base = self.repo_prefix().concat("/contents/").concat(enc.as_str());
        match ref_branch {
            None => base,
            Some(b) => {
                let benc = url_encode(b);
                base.concat("?ref=").concat(benc.as_str())
            },
        }
    }

    /// The endpoint that searches the flat listing for one file name,
    /// optionally scoped to a ref; used by the existence probe.
    pub fn file_exists_path(&self, file_path: &str, ref_branch: Option<&str>) -> (r: String)
        ensures
            match ref_branch {
                None => r@ == "repos/"@ + self.owner@ + "/"@ + self.repo@ + "/file_list"@
                    + "?file_name="@ + url_encoding_of(file_path@),
                Some(b) => r@ == "repos/"@ + self.owner@ + "/"@ + self.repo@ + "/file_list"@
                    + "?file_name="@ + url_encoding_of(file_path@) + "&ref_name="@
                    + url_encoding_of(b@),
            },
    {
        let enc = url_encode(file_path);
        let base = self.repo_prefix().concat("/file_list").concat("?file_name=").concat(
            enc.as_str(),
        );
        match ref_branch {
            None => base,
            Some(b) => {
                let benc = url_encode(b);
                base.concat("&ref_name=").concat(benc.as_str())
            },
        }
    }

    /// The endpoint that creates branches.
    pub fn branches_path(&self) -> (r: String)
        ensures
            r@ == "repos/"@ + self.owner@ + "/"@ + self.repo@ + "/branches"@,
    {
        self.repo_prefix().concat("/branches")
    }

    /// The endpoint that creates pull requests.
    pub fn pulls_path(&self) -> (r: String)
        ensures
            r@ == "repos/"@ + self.owner@ + "/"@ + self.repo@ + "/pulls"@,
    {
        self.repo_prefix().concat("/pulls")
    }

    /// The endpoint that asks approvers onto one pull request.
    pub fn reviewers_path(&self, pr_number: u64) -> (r: String)
        ensures
            r@ == "repos/"@ + self.owner@ + "/"@ + self.repo@ + "/pulls/"@ + dec_digits(
                pr_number as int,
            ) + "/requested_reviewers"@,
    {
        let digits = u64_to_string(pr_number);
        self.repo_prefix().concat("/pulls/").concat(digits.as_str()).concat(
            "/requested_reviewers",
        )
    }

    /// The endpoint of the repository's own metadata.
    pub fn repo_path(&self) -> (r: String)
        ensures
            r@ == "repos/"@ + self.owner@ + "/"@ + self.repo@,
    {
        self.repo_prefix()
    }
}

/// The request body that creates a branch from a source ref.
pub fn build_create_branch_request(branch_name: &str, source_branch: &str) -> (r:
    CreateBranchRequest)
    ensures
        r.branch_name@ == branch_name@,
        r.refs@ == source_branch@,
{
    CreateBranchRequest {
        branch_name: String::from_str(branch_name),
        refs: String::from_str(source_branch),
    }
}

/// The SHA an upsert sends: the one found on the target branch when that
/// probe succeeded, else the one found on the fallback branch; the file
/// is treated as new — created rather than updated — only when both
/// probes miss with a not-found answer. Any other probe failure is no
/// valid negative and propagates unchanged.
pub fn resolve_upsert_sha(
    target_probe: Result<FileInfo, VktError>,
    fallback_probe: Result<FileInfo, VktError>,
) -> (r: Result<Option<String>, VktError>)
    ensures
        target_probe matches Ok(fi) ==> (r matches Ok(sha) && sha == fi.sha),
        target_probe matches Err(te) ==> if !(te is ApiNotFound) {
            r matches Err(e) && e == te
        } else {
            match fallback_probe {
                Ok(fi) => r matches Ok(sha) && sha == fi.sha,
                Err(fe) => if fe is ApiNotFound {
                    r matches Ok(sha) && sha is None
                } else {
                    r matches Err(e) && e == fe
                },
            }
        },
{
    match target_probe {
        Ok(fi) => Ok(fi.sha),
        Err(te) => {
            if !te.is_not_found() {
                Err(te)
            } else {
                match fallback_probe {
                    Ok(fi) => Ok(fi.sha),
                    Err(fe) => {
                        if fe.is_not_found() {
                            Ok(None)
                        } else {
                            Err(fe)
                        }
                    },
                }
            }
        },
    }
}

/// Whether the upsert must go as an update (the resolved SHA is present)
/// rather than a create.
pub fn upsert_uses_put(sha: &Option<String>) -> (r: bool)
    ensures
        r == (sha is Some),
{
    match sha {
        Some(_) => true,
        None => false,
    }
}

/// The request body of a file upsert: the commit message, the
/// Base64-encoded content, the target branch, the resolved SHA when the
/// file already exists, and the author.
pub fn build_upsert_request(
    message: &str,
    content: &str,
    branch: &str,
    sha: Option<String>,
    author_name: &str,
    author_email: &str,
) -> (r: CreateFileRequest)
    ensures
        r.message@ == message@,
        r.content@ == content@,
        r.branch@ == branch@,
        r.sha == sha,
        r.author_name matches Some(n) && n@ == author_name@,
        r.author_email matches Some(e) && e@ == author_email@,
{
    CreateFileRequest {
        message: String::from_str(message),
        content: String::from_str(content),
        branch: String::from_str(branch),
        sha,
        author_name: Some(String::from_str(author_name)),
        author_email: Some(String::from_str(author_email)),
    }
}

/// The request body that opens a pull request.
pub fn build_pull_request(title: &str, head: &str, base: &str, body: Option<&str>) -> (r:
    CreatePullRequest)
    ensures
        r.title@ == title@,
        r.head@ == head@,
        r.base@ == base@,
        match body {
            Some(b) => r.body matches Some(rb) && rb@ == b@,
            None => r.body is None,
        },
{
    CreatePullRequest {
        title: String::from_str(title),
        head: String::from_str(head),
        base: String::from_str(base),
        body: match body {
            Some(b) => Some(String::from_str(b)),
            None => None,
        },
    }
}

/// The request body that asks approvers onto a pull request.
pub fn build_reviewers_request(reviewers: &Vec<String>) -> (r: RequestReviewers)
    ensures
        r.reviewers@ =~= reviewers@,
{
    let n = reviewers.len();
    let mut out: Vec<String> = Vec::new();
    let mut i: usize = 0;
    while i < n
        invariant
            n == reviewers@.len(),
            0 <= i <= n,
            out@ =~= reviewers@.take(i as int),
        decreases n - i,
    {
        out.push(reviewers[i].clone());
        proof {
            assert(out@ =~= reviewers@.take(i + 1));
        }
        i += 1;
    }
    proof {
        assert(reviewers@.take(n as int) =~= reviewers@);
    }
    out_to_request(out)
}

/// Wraps the copied username list into the request body.
fn out_to_request(reviewers: Vec<String>) -> (r: RequestReviewers)
    ensures
        r.reviewers == reviewers,
{
    RequestReviewers { reviewers }
}

/// The existence test over a metadata probe's outcome: a successful probe
/// means the file exists; a not-found failure is the valid negative
/// answer, not an error; any other failure propagates unchanged.
pub fn file_exists_from_probe(probe: Result<FileInfo, VktError>) -> (r: Result<bool, VktError>)
    ensures
        probe is Ok ==> r == Result::<bool, VktError>::Ok(true),
        probe matches Err(e) ==> if e is ApiNotFound {
            r == Result::<bool, VktError>::Ok(false)
        } else {
            r matches Err(e2) && e2 == e
        },
{
    match probe {
        Ok(_) => Ok(true),
        Err(e) => {
            if e.is_not_found() {
                Ok(false)
            } else {
                Err(e)
            }
        },
    }
}

/// The outcome a response body resolves to: a success status hands the
/// body on for parsing; any other status is classified onto the error
/// taxonomy, the body kept as the diagnostic text.
pub fn response_outcome(status: u16, body: String) -> (r: Result<String, VktError>)
    ensures
        spec_is_success_status(status) ==> (r matches Ok(b) && b == body),
        !spec_is_success_status(status) ==> (r matches Err(e) && e@ == spec_classify_status(
            status,
            body@,
        )),
{
    if 200 <= status && status < 300 {
        Ok(body)
    } else {
        let e = classify_status(status, body.as_str());
        Err(e)
    }
}

/// Asking approvers onto the pull request is best effort: whatever the
/// endpoint answered — including a not-found or unsupported answer — the
/// overall workflow reports success; the pull request already exists at
/// this point.
pub fn reviewer_assignment_outcome(outcome: Result<(), VktError>) -> (r: Result<(), VktError>)
    ensures
        r is Ok,
{
    match outcome {
        Ok(_) => Ok(()),
        Err(_) => Ok(()),
    }
}

/// Create a provider from configuration. Only the GitCode family is
/// implemented; the other recognized families and any unrecognized
/// identifier are configuration-time errors.
pub fn create_provider(config: &Config) -> (r: Result<GitCodeProvider, VktError>)
    ensures
        ({
            let p = lower_seq(config.remote.provider@);
            if p == "gitcode"@ {
                match r {
                    Ok(prov) => {
                        &&& has_single_char(config.repo.project_id@, '/')
                        &&& prov.owner@ == split_first_part(config.repo.project_id@, '/')
                        &&& prov.repo@ == split_second_part(config.repo.project_id@, '/')
                        &&& prov.base_url@ == trim_trailing(config.remote.api_url@, '/')
                        &&& prov.token@ == config.remote.token@
                        &&& prov.default_branch@ == config.repo.default_branch@
                    },
                    Err(e) => !has_single_char(config.repo.project_id@, '/') && e@
                        == spec_bad_project_id_error(),
                }
            } else if p == "gitlab"@ {
                r matches Err(e) && e@ == VktErrorView::Config(
                    "GitLab provider not yet implemented"@,
                )
            } else if p == "github"@ {
                r matches Err(e) && e@ == VktErrorView::Config(
                    "GitHub provider not yet implemented"@,
                )
            } else {
                r matches Err(e) && e@ == VktErrorView::Config(
                    "Unknown provider: "@ + p + ". Supported providers: GitCode, GitLab, GitHub"@,
                )
            }
        }),
{
    match config.remote.provider_type() {
        crate::config::ProviderType::GitCode => GitCodeProvider::new(config),
        crate::config::ProviderType::GitLab => Err(
            VktError::Config(String::from_str("GitLab provider not yet implemented")),
        ),
        crate::config::ProviderType::GitHub => Err(
            VktError::Config(String::from_str("GitHub provider not yet implemented")),
        ),
        crate::config::ProviderType::Unknown(p) => Err(
            VktError::Config(
                String::from_str("Unknown provider: ").concat(p.as_str()).concat(
                    ". Supported providers: GitCode, GitLab, GitHub",
                ),
            ),
        ),
    }
}

/// API client over the selected provider, planning requests through it.
#[derive(Debug, Clone)]
pub struct ApiClient {
    /// The selected provider's connection data
    pub provider: GitCodeProvider,
}

impl ApiClient {
    /// Create a new API client from configuration; fails exactly when the
    /// factory rejects the configuration.
    pub fn new(config: &Config) -> (r: Result<ApiClient, VktError>)
        ensures
            r is Ok <==> (lower_seq(config.remote.provider@) == "gitcode"@ && has_single_char(
                config.repo.project_id@,
                '/',
            )),
            r matches Ok(c) ==> {
                &&& c.provider.owner@ == split_first_part(config.repo.project_id@, '/')
                &&& c.provider.repo@ == split_second_part(config.repo.project_id@, '/')
                &&& c.provider.base_url@ == trim_trailing(config.remote.api_url@, '/')
                &&& c.provider.token@ == config.remote.token@
                &&& c.provider.default_branch@ == config.repo.default_branch@
            },
    {
        proof {
            reveal_strlit("gitcode");
            reveal_strlit("gitlab");
            reveal_strlit("github");
            assert("gitcode"@.len() == 7);
            assert("gitlab"@.len() == 6);
            assert("github"@.len() == 6);
            assert("gitlab"@[3] != "github"@[3]);
        }
        match create_provider(config) {
            Ok(provider) => Ok(ApiClient { provider }),
            Err(e) => Err(e),
        }
    }
}

} // verus!
