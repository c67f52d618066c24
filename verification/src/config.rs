//! Configuration model and validation.
//!
//! The configuration names the user, the remote provider, the repository
//! and the templates. It is constructed once, outside this crate, and
//! passed by reference into every component; this module holds the value
//! types, the closed provider enumeration, the validation rules, and the
//! dotted-key access used by the configuration command. Loading from disk
//! and environment overrides live outside this crate.

use vstd::prelude::*;

use crate::error::{VktError, VktErrorView};
use crate::strutil::{
    contains_char, contains_sub_lower, find_char, lower_seq, spec_contains_char,
    spec_contains_sub, spec_starts_with, starts_with, str_eq, to_lowercase_str,
};

verus! {

/// User configuration.
#[derive(Debug, Clone)]
pub struct UserConfig {
    /// User name
    pub name: String,
    /// Email address
    pub email: String,
    /// Automatically add a sign-off trailer to commit messages
    pub auto_signoff: bool,
}

/// Remote repository configuration.
#[derive(Debug, Clone)]
pub struct RemoteConfig {
    /// Provider identifier (e.g. "Gitcode", "GitLab", "GitHub")
    pub provider: String,
    /// API base URL
    pub api_url: String,
    /// Access token
    pub token: String,
}

/// Repository configuration.
#[derive(Debug, Clone)]
pub struct RepoConfig {
    /// Project ID in "owner/repo" form
    pub project_id: String,
    /// Default branch
    pub default_branch: String,
}

/// Template configuration.
#[derive(Debug, Clone)]
pub struct TemplateConfig {
    /// PR title prefix
    pub pr_prefix: String,
}

/// Main configuration.
#[derive(Debug, Clone)]
pub struct Config {
    /// User configuration
    pub user: UserConfig,
    /// Remote repository configuration
    pub remote: RemoteConfig,
    /// Repository configuration
    pub repo: RepoConfig,
    /// Template configuration
    pub template: TemplateConfig,
}

/// The default branch name used when the configuration names none.
pub fn default_branch() -> (r: String)
    ensures
        r@ == "main"@,
{
    String::from_str("main")
}

/// Provider type: a closed enumeration; anything unrecognized is carried
/// as its lower-cased identifier and is a configuration-time error at the
/// factory.
#[derive(Debug, Clone)]
pub enum ProviderType {
    GitCode,
    GitLab,
    GitHub,
    Unknown(String),
}

impl PartialEq for ProviderType {
    fn eq(&self, other: &ProviderType) -> (r: bool) {
        match (self, other) {
            (ProviderType::GitCode, ProviderType::GitCode) => true,
            (ProviderType::GitLab, ProviderType::GitLab) => true,
            (ProviderType::GitHub, ProviderType::GitHub) => true,
            (ProviderType::Unknown(a), ProviderType::Unknown(b)) => str_eq(a.as_str(), b.as_str()),
            _ => false,
        }
    }
}

impl vstd::std_specs::cmp::PartialEqSpecImpl for ProviderType {
    open spec fn obeys_eq_spec() -> bool {
        true
    }

    open spec fn eq_spec(&self, other: &ProviderType) -> bool {
        match (self, other) {
            (ProviderType::GitCode, ProviderType::GitCode) => true,
            (ProviderType::GitLab, ProviderType::GitLab) => true,
            (ProviderType::GitHub, ProviderType::GitHub) => true,
            (ProviderType::Unknown(a), ProviderType::Unknown(b)) => a@ == b@,
            _ => false,
        }
    }
}

impl ProviderType {
    /// Parse provider type from string, case-insensitively; an
    /// unrecognized identifier is carried lower-cased.
    pub fn parse(s: &str) -> (r: ProviderType)
        ensures
            lower_seq(s@) == "gitcode"@ ==> r is GitCode,
            lower_seq(s@) == "gitlab"@ ==> r is GitLab,
            lower_seq(s@) == "github"@ ==> r is GitHub,
            (lower_seq(s@) != "gitcode"@ && lower_seq(s@) != "gitlab"@ && lower_seq(s@)
                != "github"@) ==> (r matches ProviderType::Unknown(u) && u@ == lower_seq(s@)),
    {
        let low = to_lowercase_str(s);
        proof {
            reveal_strlit("gitcode");
            reveal_strlit("gitlab");
            reveal_strlit("github");
            assert("gitcode"@.len() == 7);
            assert("gitlab"@.len() == 6);
            assert("github"@.len() == 6);
            assert("gitlab"@[3] != "github"@[3]);
        }
        if str_eq(low.as_str(), "gitcode") {
            ProviderType::GitCode
        } else if str_eq(low.as_str(), "gitlab") {
            ProviderType::GitLab
        } else if str_eq(low.as_str(), "github") {
            ProviderType::GitHub
        } else {
            ProviderType::Unknown(low)
        }
    }

    /// The canonical lower-case identifier of this provider.
    pub fn as_str(&self) -> (r: &str)
        ensures
            self is GitCode ==> r@ == "gitcode"@,
            self is GitLab ==> r@ == "gitlab"@,
            self is GitHub ==> r@ == "github"@,
            self matches ProviderType::Unknown(u) ==> r@ == u@,
    {
        match self {
            ProviderType::GitCode => "gitcode",
            ProviderType::GitLab => "gitlab",
            ProviderType::GitHub => "github",
            ProviderType::Unknown(s) => s.as_str(),
        }
    }

    /// The default API URL for this provider; an unrecognized provider has
    /// none.
    pub fn default_api_url(&self) -> (r: Option<&'static str>)
        ensures
            self is GitCode ==> (r matches Some(u) && u@ == "https://api.gitcode.com/api/v5"@),
            self is GitLab ==> (r matches Some(u) && u@ == "https://gitlab.com/api/v4"@),
            self is GitHub ==> (r matches Some(u) && u@ == "https://api.github.com"@),
            self is Unknown ==> r is None,
    {
        match self {
            ProviderType::GitCode => Some("https://api.gitcode.com/api/v5"),
            ProviderType::GitLab => Some("https://gitlab.com/api/v4"),
            ProviderType::GitHub => Some("https://api.github.com"),
            ProviderType::Unknown(_) => None,
        }
    }
}

impl RemoteConfig {
    /// The provider enumeration this configuration names.
    pub fn provider_type(&self) -> (r: ProviderType)
        ensures
            lower_seq(self.provider@) == "gitcode"@ ==> r is GitCode,
            lower_seq(self.provider@) == "gitlab"@ ==> r is GitLab,
            lower_seq(self.provider@) == "github"@ ==> r is GitHub,
            (lower_seq(self.provider@) != "gitcode"@ && lower_seq(self.provider@) != "gitlab"@
                && lower_seq(self.provider@) != "github"@) ==> (r matches ProviderType::Unknown(u)
                && u@ == lower_seq(self.provider@)),
    {
        ProviderType::parse(self.provider.as_str())
    }
}

/// Auto-detects the provider type from an API URL by its host phrasing,
/// case-insensitively.
pub fn detect_provider(api_url: &str) -> (r: ProviderType)
    ensures
        ({
            let l = lower_seq(api_url@);
            if spec_contains_sub(l, "gitcode.com"@) {
                r is GitCode
            } else if spec_contains_sub(l, "gitlab"@) || spec_contains_sub(l, "git-lab"@) {
                r is GitLab
            } else if spec_contains_sub(l, "github.com"@) {
                r is GitHub
            } else {
                r matches ProviderType::Unknown(u) && u@ == "unknown"@
            }
        }),
{
    if contains_sub_lower(api_url, "gitcode.com") {
        ProviderType::GitCode
    } else if contains_sub_lower(api_url, "gitlab") || contains_sub_lower(api_url, "git-lab") {
        ProviderType::GitLab
    } else if contains_sub_lower(api_url, "github.com") {
        ProviderType::GitHub
    } else {
        ProviderType::Unknown(String::from_str("unknown"))
    }
}

/// True when `i` is the position of the only dot in the key.
pub open spec fn is_unique_dot(key: Seq<char>, i: int) -> bool {
    0 <= i < key.len() && key[i] == '.' && forall|j: int|
        0 <= j < key.len() && j != i ==> key[j] != '.'
}

/// True when the key holds exactly one dot.
pub open spec fn has_single_dot(key: Seq<char>) -> bool {
    exists|i: int| is_unique_dot(key, i)
}

/// The section part of a well-formed dotted key.
pub open spec fn key_section(key: Seq<char>) -> Seq<char> {
    key.take(choose|i: int| is_unique_dot(key, i))
}

/// The field part of a well-formed dotted key.
pub open spec fn key_field(key: Seq<char>) -> Seq<char> {
    key.skip((choose|i: int| is_unique_dot(key, i)) + 1)
}

/// A witnessed unique dot position determines the section and field.
pub proof fn lemma_key_parts(key: Seq<char>, i: int)
    requires
        is_unique_dot(key, i),
    ensures
        key_section(key) == key.take(i),
        key_field(key) == key.skip(i + 1),
{
    let c = choose|c: int| is_unique_dot(key, c);
    if c != i {
        assert(key[c] == '.');
        assert(key[c] != '.');
    }
}

/// The rendering of a boolean configuration value.
pub open spec fn spec_bool_string(b: bool) -> Seq<char> {
    if b {
        "true"@
    } else {
        "false"@
    }
}

/// The value a well-formed dotted key renders to, or nothing when the key
/// is unknown. The access token is masked.
pub open spec fn spec_config_value(c: Config, sec: Seq<char>, fld: Seq<char>) -> Option<
    Seq<char>,
> {
    if sec == "user"@ && fld == "name"@ {
        Some(c.user.name@)
    } else if sec == "user"@ && fld == "email"@ {
        Some(c.user.email@)
    } else if sec == "user"@ && fld == "auto_signoff"@ {
        Some(spec_bool_string(c.user.auto_signoff))
    } else if sec == "remote"@ && fld == "provider"@ {
        Some(c.remote.provider@)
    } else if sec == "remote"@ && fld == "api_url"@ {
        Some(c.remote.api_url@)
    } else if sec == "remote"@ && fld == "token"@ {
        Some("********"@)
    } else if sec == "repo"@ && fld == "project_id"@ {
        Some(c.repo.project_id@)
    } else if sec == "repo"@ && fld == "default_branch"@ {
        Some(c.repo.default_branch@)
    } else if sec == "template"@ && fld == "pr_prefix"@ {
        Some(c.template.pr_prefix@)
    } else {
        None
    }
}

/// The error reported for a key that is not `section.field`.
pub open spec fn spec_bad_key_error(key: Seq<char>) -> VktErrorView {
    VktErrorView::Validation(
        "Invalid key format '"@ + key + "'. Use format: section.field (e.g., user.name)"@,
    )
}

/// The error reported for a well-formed key that names no value.
pub open spec fn spec_unknown_key_error(key: Seq<char>) -> VktErrorView {
    VktErrorView::Validation("Unknown config key: "@ + key)
}

/// True of a plausible email: long enough, holding `@` and `.`, starting
/// with neither `@` nor ending with `.`.
pub open spec fn spec_valid_email(s: Seq<char>) -> bool {
    s.len() > 5 && spec_contains_char(s, '@') && spec_contains_char(s, '.') && s[0] != '@'
        && s[s.len() - 1] != '.'
}

/// True of a plausible URL: an HTTP scheme and enough after it.
pub open spec fn spec_valid_url(s: Seq<char>) -> bool {
    (spec_starts_with(s, "http://"@) || spec_starts_with(s, "https://"@)) && s.len() > 10
}

/// The first validation failure of a configuration, or nothing when it is
/// valid: user name and email, provider, API URL, token, and project ID
/// are checked in that order.
pub open spec fn spec_validate_error(c: Config) -> Option<VktErrorView> {
    if c.user.name@.len() == 0 {
        Some(VktErrorView::Config("User name cannot be empty"@))
    } else if c.user.email@.len() == 0 {
        Some(VktErrorView::Config("User email cannot be empty"@))
    } else if !spec_valid_email(c.user.email@) {
        Some(VktErrorView::Config("Invalid email format: "@ + c.user.email@))
    } else if c.remote.provider@.len() == 0 {
        Some(VktErrorView::Config("Provider cannot be empty"@))
    } else if c.remote.api_url@.len() == 0 {
        Some(VktErrorView::Config("API URL cannot be empty"@))
    } else if !spec_valid_url(c.remote.api_url@) {
        Some(VktErrorView::Config("Invalid API URL format: "@ + c.remote.api_url@))
    } else if c.remote.token@.len() == 0 {
        Some(VktErrorView::Config("Access token cannot be empty"@))
    } else if c.repo.project_id@.len() == 0 {
        Some(VktErrorView::Config("Project ID cannot be empty"@))
    } else if !spec_contains_char(c.repo.project_id@, '/') {
        Some(VktErrorView::Config("Project ID format should be 'owner/repo'"@))
    } else {
        None
    }
}

impl Config {
    /// Parse a dotted key path (e.g. "user.name") into its section and
    /// field; a key without exactly one dot is rejected.
    pub fn parse_key(key: &str) -> (r: Result<(&str, &str), VktError>)
        ensures
            match r {
                Ok(parts) => has_single_dot(key@) && parts.0@ == key_section(key@) && parts.1@
                    == key_field(key@),
                Err(e) => !has_single_dot(key@) && e@ == spec_bad_key_error(key@),
            },
    {
        let len = key.unicode_len();
        match find_char(key, '.') {
            None => {
                proof {
                    assert forall|i: int| !is_unique_dot(key@, i) by {
                        if 0 <= i < key@.len() {
                            assert(key@[i] != '.');
                        }
                    }
                }
                Err(bad_key_error(key))
            },
            Some(i) => {
                let rest = key.substring_char(i + 1, len);
                proof {
                    assert(rest@ =~= key@.skip(i + 1));
                }
                match find_char(rest, '.') {
                    Some(j) => {
                        proof {
                            let a = i as int;
                            let b = i + 1 + j as int;
                            assert(key@[b] == rest@[j as int]);
                            assert forall|k: int| !is_unique_dot(key@, k) by {
                                if is_unique_dot(key@, k) {
                                    if k != a {
                                        assert(key@[a] != '.');
                                    } else {
                                        assert(key@[b] != '.');
                                    }
                                }
                            }
                        }
                        Err(bad_key_error(key))
                    },
                    None => {
                        proof {
                            assert forall|j: int|
                                0 <= j < key@.len() && j != i ==> key@[j] != '.' by {
                                if 0 <= j < key@.len() && j != i {
                                    if j > i {
                                        assert(rest@[j - i - 1] != '.');
                                    }
                                }
                            }
                            assert(is_unique_dot(key@, i as int));
                            lemma_key_parts(key@, i as int);
                            assert(key@.subrange(0, i as int) =~= key@.take(i as int));
                        }
                        let sec = key.substring_char(0, i);
                        Ok((sec, rest))
                    },
                }
            },
        }
    }

    /// Renders the configuration value a dotted key names. The access
    /// token is masked; an unknown or malformed key is rejected.
    pub fn get_value(&self, key: &str) -> (r: Result<String, VktError>)
        ensures
            !has_single_dot(key@) ==> (r matches Err(e) && e@ == spec_bad_key_error(key@)),
            has_single_dot(key@) ==> match spec_config_value(
                *self,
                key_section(key@),
                key_field(key@),
            ) {
                Some(v) => r matches Ok(s) && s@ == v,
                None => r matches Err(e) && e@ == spec_unknown_key_error(key@),
            },
    {
        let parts = match Self::parse_key(key) {
            Ok(p) => p,
            Err(e) => {
                return Err(e);
            },
        };
        let (sec, fld) = parts;
        if str_eq(sec, "user") && str_eq(fld, "name") {
            Ok(self.user.name.clone())
        } else if str_eq(sec, "user") && str_eq(fld, "email") {
            Ok(self.user.email.clone())
        } else if str_eq(sec, "user") && str_eq(fld, "auto_signoff") {
            Ok(bool_string(self.user.auto_signoff))
        } else if str_eq(sec, "remote") && str_eq(fld, "provider") {
            Ok(self.remote.provider.clone())
        } else if str_eq(sec, "remote") && str_eq(fld, "api_url") {
            Ok(self.remote.api_url.clone())
        } else if str_eq(sec, "remote") && str_eq(fld, "token") {
            Ok(String::from_str("********"))
        } else if str_eq(sec, "repo") && str_eq(fld, "project_id") {
            Ok(self.repo.project_id.clone())
        } else if str_eq(sec, "repo") && str_eq(fld, "default_branch") {
            Ok(self.repo.default_branch.clone())
        } else if str_eq(sec, "template") && str_eq(fld, "pr_prefix") {
            Ok(self.template.pr_prefix.clone())
        } else {
            Err(VktError::Validation(String::from_str("Unknown config key: ").concat(key)))
        }
    }

    /// Updates the configuration value a dotted key names, enforcing the
    /// same rules validation does: a rejected update leaves the
    /// configuration unchanged.
    pub fn set_value(&mut self, key: &str, value: &str) -> (r: Result<(), VktError>)
        ensures
            !has_single_dot(key@) ==> (r matches Err(e) && e@ == spec_bad_key_error(key@) && *final(self) == *old(self)),
            has_single_dot(key@) ==> ({
                let sec = key_section(key@);
                let fld = key_field(key@);
                if sec == "user"@ && fld == "name"@ {
                    if value@.len() == 0 {
                        r matches Err(e) && e@ == VktErrorView::Validation(
                            "User name cannot be empty"@,
                        ) && *final(self) == *old(self)
                    } else {
                        r is Ok && final(self).user.name@ == value@ && final(self).user.email
                            == old(self).user.email && final(self).user.auto_signoff == old(self).user.auto_signoff && final(self).remote == old(self).remote && final(self).repo == old(self).repo && final(self).template == old(self).template
                    }
                } else if sec == "user"@ && fld == "email"@ {
                    if !spec_valid_email(value@) {
                        r matches Err(e) && e@ == VktErrorView::Validation(
                            "Invalid email: "@ + value@,
                        ) && *final(self) == *old(self)
                    } else {
                        r is Ok && final(self).user.email@ == value@ && final(self).user.name
                            == old(self).user.name && final(self).user.auto_signoff == old(self).user.auto_signoff && final(self).remote == old(self).remote && final(self).repo == old(self).repo && final(self).template == old(self).template
                    }
                } else if sec == "user"@ && fld == "auto_signoff"@ {
                    if value@ == "true"@ {
                        r is Ok && final(self).user.auto_signoff == true && final(self).user.name
                            == old(self).user.name && final(self).user.email == old(self).user.email && final(self).remote == old(self).remote && final(self).repo
                            == old(self).repo && final(self).template == old(self).template
                    } else if value@ == "false"@ {
                        r is Ok && final(self).user.auto_signoff == false && final(self).user.name
                            == old(self).user.name && final(self).user.email == old(self).user.email && final(self).remote == old(self).remote && final(self).repo
                            == old(self).repo && final(self).template == old(self).template
                    } else {
                        r matches Err(e) && e@ == VktErrorView::Validation(
                            "Expected boolean value: "@ + value@,
                        ) && *final(self) == *old(self)
                    }
                } else if sec == "remote"@ && fld == "provider"@ {
                    if value@.len() == 0 {
                        r matches Err(e) && e@ == VktErrorView::Validation(
                            "Provider cannot be empty"@,
                        ) && *final(self) == *old(self)
                    } else {
                        r is Ok && final(self).remote.provider@ == value@ && final(self).remote.api_url == old(self).remote.api_url && final(self).remote.token
                            == old(self).remote.token && final(self).user == old(self).user
                            && final(self).repo == old(self).repo && final(self).template == old(self).template
                    }
                } else if sec == "remote"@ && fld == "api_url"@ {
                    if !spec_valid_url(value@) {
                        r matches Err(e) && e@ == VktErrorView::Validation(
                            "Invalid URL: "@ + value@,
                        ) && *final(self) == *old(self)
                    } else {
                        r is Ok && final(self).remote.api_url@ == value@ && final(self).remote.provider == old(self).remote.provider && final(self).remote.token
                            == old(self).remote.token && final(self).user == old(self).user
                            && final(self).repo == old(self).repo && final(self).template == old(self).template
                    }
                } else if sec == "remote"@ && fld == "token"@ {
                    if value@.len() == 0 {
                        r matches Err(e) && e@ == VktErrorView::Validation(
                            "Token cannot be empty"@,
                        ) && *final(self) == *old(self)
                    } else {
                        r is Ok && final(self).remote.token@ == value@ && final(self).remote.provider == old(self).remote.provider && final(self).remote.api_url == old(self).remote.api_url && final(self).user == old(self).user && final(self).repo == old(self).repo && final(self).template == old(self).template
                    }
                } else if sec == "repo"@ && fld == "project_id"@ {
                    if !spec_contains_char(value@, '/') {
                        r matches Err(e) && e@ == VktErrorView::Validation(
                            "Project ID must be in format: owner/repo"@,
                        ) && *final(self) == *old(self)
                    } else {
                        r is Ok && final(self).repo.project_id@ == value@ && final(self).repo.default_branch == old(self).repo.default_branch && final(self).user
                            == old(self).user && final(self).remote == old(self).remote && final(self).template == old(self).template
                    }
                } else if sec == "repo"@ && fld == "default_branch"@ {
                    if value@.len() == 0 {
                        r matches Err(e) && e@ == VktErrorView::Validation(
                            "Default branch cannot be empty"@,
                        ) && *final(self) == *old(self)
                    } else {
                        r is Ok && final(self).repo.default_branch@ == value@ && final(self).repo.project_id == old(self).repo.project_id && final(self).user == old(self).user && final(self).remote == old(self).remote && final(self).template
                            == old(self).template
                    }
                } else if sec == "template"@ && fld == "pr_prefix"@ {
                    r is Ok && final(self).template.pr_prefix@ == value@ && final(self).user == old(self).user && final(self).remote == old(self).remote && final(self).repo == old(self).repo
                } else {
                    r matches Err(e) && e@ == spec_unknown_key_error(key@) && *final(self) == *old(self)
                }
            }),
    {
        let parts = match Self::parse_key(key) {
            Ok(p) => p,
            Err(e) => {
                return Err(e);
            },
        };
        let (sec, fld) = parts;
        if str_eq(sec, "user") && str_eq(fld, "name") {
            if value.unicode_len() == 0 {
                return Err(VktError::Validation(String::from_str("User name cannot be empty")));
            }
            self.user.name = String::from_str(value);
            Ok(())
        } else if str_eq(sec, "user") && str_eq(fld, "email") {
            if !Self::is_valid_email(value) {
                return Err(
                    VktError::Validation(String::from_str("Invalid email: ").concat(value)),
                );
            }
            self.user.email = String::from_str(value);
            Ok(())
        } else if str_eq(sec, "user") && str_eq(fld, "auto_signoff") {
            if str_eq(value, "true") {
                self.user.auto_signoff = true;
                Ok(())
            } else if str_eq(value, "false") {
                self.user.auto_signoff = false;
                Ok(())
            } else {
                Err(
                    VktError::Validation(
                        String::from_str("Expected boolean value: ").concat(value),
                    ),
                )
            }
        } else if str_eq(sec, "remote") && str_eq(fld, "provider") {
            if value.unicode_len() == 0 {
                return Err(VktError::Validation(String::from_str("Provider cannot be empty")));
            }
            self.remote.provider = String::from_str(value);
            Ok(())
        } else if str_eq(sec, "remote") && str_eq(fld, "api_url") {
            if !Self::is_valid_url(value) {
                return Err(VktError::Validation(String::from_str("Invalid URL: ").concat(value)));
            }
            self.remote.api_url = String::from_str(value);
            Ok(())
        } else if str_eq(sec, "remote") && str_eq(fld, "token") {
            if value.unicode_len() == 0 {
                return Err(VktError::Validation(String::from_str("Token cannot be empty")));
            }
            self.remote.token = String::from_str(value);
            Ok(())
        } else if str_eq(sec, "repo") && str_eq(fld, "project_id") {
            if !contains_char(value, '/') {
                return Err(
                    VktError::Validation(
                        String::from_str("Project ID must be in format: owner/repo"),
                    ),
                );
            }
            self.repo.project_id = String::from_str(value);
            Ok(())
        } else if str_eq(sec, "repo") && str_eq(fld, "default_branch") {
            if value.unicode_len() == 0 {
                return Err(
                    VktError::Validation(String::from_str("Default branch cannot be empty")),
                );
            }
            self.repo.default_branch = String::from_str(value);
            Ok(())
        } else if str_eq(sec, "template") && str_eq(fld, "pr_prefix") {
            self.template.pr_prefix = String::from_str(value);
            Ok(())
        } else {
            Err(VktError::Validation(String::from_str("Unknown config key: ").concat(key)))
        }
    }

    /// Validates the configuration, reporting the first rule it breaks.
    pub fn validate(&self) -> (r: Result<(), VktError>)
        ensures
            match spec_validate_error(*self) {
                None => r is Ok,
                Some(e) => r matches Err(err) && err@ == e,
            },
    {
        if self.user.name.as_str().unicode_len() == 0 {
            return Err(VktError::Config(String::from_str("User name cannot be empty")));
        }
        if self.user.email.as_str().unicode_len() == 0 {
            return Err(VktError::Config(String::from_str("User email cannot be empty")));
        }
        if !Self::is_valid_email(self.user.email.as_str()) {
            return Err(
                VktError::Config(
                    String::from_str("Invalid email format: ").concat(self.user.email.as_str()),
                ),
            );
        }
        if self.remote.provider.as_str().unicode_len() == 0 {
            return Err(VktError::Config(String::from_str("Provider cannot be empty")));
        }
        if self.remote.api_url.as_str().unicode_len() == 0 {
            return Err(VktError::Config(String::from_str("API URL cannot be empty")));
        }
        if !Self::is_valid_url(self.remote.api_url.as_str()) {
            return Err(
                VktError::Config(
                    String::from_str("Invalid API URL format: ").concat(
                        self.remote.api_url.as_str(),
                    ),
                ),
            );
        }
        if self.remote.token.as_str().unicode_len() == 0 {
            return Err(VktError::Config(String::from_str("Access token cannot be empty")));
        }
        if self.repo.project_id.as_str().unicode_len() == 0 {
            return Err(VktError::Config(String::from_str("Project ID cannot be empty")));
        }
        if !contains_char(self.repo.project_id.as_str(), '/') {
            return Err(
                VktError::Config(String::from_str("Project ID format should be 'owner/repo'")),
            );
        }
        Ok(())
    }

    /// Simple email plausibility test.
    pub fn is_valid_email(email: &str) -> (r: bool)
        ensures
            r == spec_valid_email(email@),
    {
        let len = email.unicode_len();
        len > 5 && contains_char(email, '@') && contains_char(email, '.') && email.get_char(0)
            != '@' && email.get_char(len - 1) != '.'
    }

    /// Simple URL plausibility test.
    pub fn is_valid_url(url: &str) -> (r: bool)
        ensures
            r == spec_valid_url(url@),
    {
        (starts_with(url, "http://") || starts_with(url, "https://")) && url.unicode_len() > 10
    }

    /// A commented configuration example a setup flow can offer.
    pub fn example() -> (r: String)
        ensures
            r@ == spec_example_text(),
            spec_contains_sub(r@, "[user]"@),
            spec_contains_sub(r@, "[remote]"@),
            spec_contains_sub(r@, "[repo]"@),
            spec_contains_sub(r@, "[template]"@),
    {
        let text =
            "# Configuration file example\n# Location: ~/.config/vkt/config.toml\n\n[user]\nname = \"John Doe\"\nemail = \"john.doe@example.com\"\nauto_signoff = true\n\n[remote]\nprovider = \"Gitcode\"\napi_url = \"https://api.gitcode.com/api/v5\"\ntoken = \"your-api-token-here\"\n\n[repo]\nproject_id = \"owner/repo\"\ndefault_branch = \"main\"\n\n[template]\npr_prefix = \"[VIRT-TOOL]\"\n";
        proof {
            reveal_strlit(
                "# Configuration file example\n# Location: ~/.config/vkt/config.toml\n\n[user]\nname = \"John Doe\"\nemail = \"john.doe@example.com\"\nauto_signoff = true\n\n[remote]\nprovider = \"Gitcode\"\napi_url = \"https://api.gitcode.com/api/v5\"\ntoken = \"your-api-token-here\"\n\n[repo]\nproject_id = \"owner/repo\"\ndefault_branch = \"main\"\n\n[template]\npr_prefix = \"[VIRT-TOOL]\"\n",
            );
            reveal_strlit("[user]");
            reveal_strlit("[remote]");
            reveal_strlit("[repo]");
            reveal_strlit("[template]");
            assert(text@.subrange(68, 68 + "[user]"@.len() as int) =~= "[user]"@);
            assert(text@.subrange(145, 145 + "[remote]"@.len() as int) =~= "[remote]"@);
            assert(text@.subrange(249, 249 + "[repo]"@.len() as int) =~= "[repo]"@);
            assert(text@.subrange(307, 307 + "[template]"@.len() as int) =~= "[template]"@);
        }
        String::from_str(text)
    }
}

/// Arguments of the configuration command.
#[derive(Debug, Clone)]
pub struct ConfigArgs {
    /// Dotted key to read or write
    pub key: Option<String>,
    /// Value to write; reading when absent
    pub value: Option<String>,
    /// Show the whole configuration
    pub list: bool,
    /// Run the interactive setup
    pub setup: bool,
}

/// The configuration command.
#[derive(Debug, Clone)]
pub struct ConfigCommand {
    /// The command's arguments
    pub args: ConfigArgs,
}

/// What a configuration command invocation does.
#[derive(Debug)]
pub enum ConfigPlan {
    /// Run the interactive setup and save
    Setup,
    /// Show every value
    ListAll,
    /// Show the value of one key
    ShowValue(String),
    /// Set one key to a value and save
    SetValue(String, String),
}

/// The plain rendering of the whole configuration, one section per
/// block, the access token masked.
pub open spec fn spec_config_listing(c: Config) -> Seq<char> {
    "[user]\n  name = "@ + c.user.name@ + "\n  email = "@ + c.user.email@
        + "\n  auto_signoff = "@ + spec_bool_string(c.user.auto_signoff)
        + "\n[remote]\n  provider = "@ + c.remote.provider@ + "\n  api_url = "@
        + c.remote.api_url@ + "\n  token = ********\n[repo]\n  project_id = "@
        + c.repo.project_id@ + "\n  default_branch = "@ + c.repo.default_branch@
        + "\n[template]\n  pr_prefix = "@ + c.template.pr_prefix@ + "\n"@
}

impl ConfigCommand {
    /// Create a new configuration command.
    pub fn new(args: ConfigArgs) -> (r: ConfigCommand)
        ensures
            r.args == args,
    {
        ConfigCommand { args }
    }

    /// The rendering of one configuration value, exactly as `get_value`
    /// resolves it.
    pub fn show_value(&self, config: &Config, key: &str) -> (r: Result<String, VktError>)
        ensures
            !has_single_dot(key@) ==> (r matches Err(e) && e@ == spec_bad_key_error(key@)),
            has_single_dot(key@) ==> match spec_config_value(
                *config,
                key_section(key@),
                key_field(key@),
            ) {
                Some(v) => r matches Ok(s) && s@ == v,
                None => r matches Err(e) && e@ == spec_unknown_key_error(key@),
            },
    {
        config.get_value(key)
    }

    /// The rendering of the whole configuration, the access token
    /// masked.
    pub fn list_all(&self, config: &Config) -> (r: String)
        ensures
            r@ == spec_config_listing(*config),
    {
        String::from_str("[user]\n  name = ").concat(config.user.name.as_str()).concat(
            "\n  email = ",
        ).concat(config.user.email.as_str()).concat("\n  auto_signoff = ").concat(
            bool_string(config.user.auto_signoff).as_str(),
        ).concat("\n[remote]\n  provider = ").concat(config.remote.provider.as_str()).concat(
            "\n  api_url = ",
        ).concat(config.remote.api_url.as_str()).concat(
            "\n  token = ********\n[repo]\n  project_id = ",
        ).concat(config.repo.project_id.as_str()).concat("\n  default_branch = ").concat(
            config.repo.default_branch.as_str(),
        ).concat("\n[template]\n  pr_prefix = ").concat(config.template.pr_prefix.as_str()).concat(
            "\n",
        )
    }

    /// What this invocation does: setup when asked; showing everything
    /// under the list flag or when neither key nor value was given;
    /// otherwise a key is required, read without a value and written with
    /// one.
    pub fn plan(&self) -> (r: Result<ConfigPlan, VktError>)
        ensures
            self.args.setup ==> (r matches Ok(p) && p is Setup),
            ({
                let list_mode = self.args.list || (self.args.key is None && self.args.value
                    is None);
                !self.args.setup ==> if list_mode {
                    r matches Ok(p) && p is ListAll
                } else {
                    match self.args.key {
                        None => r matches Err(e) && e@ == VktErrorView::Validation(
                            "Key is required"@,
                        ),
                        Some(k) => match self.args.value {
                            None => r matches Ok(p) && p matches ConfigPlan::ShowValue(pk) && pk@
                                == k@,
                            Some(v) => r matches Ok(p) && p matches ConfigPlan::SetValue(pk, pv)
                                && pk@ == k@ && pv@ == v@,
                        },
                    }
                }
            }),
    {
        if self.args.setup {
            return Ok(ConfigPlan::Setup);
        }
        let no_key = match &self.args.key {
            Some(_) => false,
            None => true,
        };
        let no_value = match &self.args.value {
            Some(_) => false,
            None => true,
        };
        if self.args.list || (no_key && no_value) {
            return Ok(ConfigPlan::ListAll);
        }
        let key = match &self.args.key {
            Some(k) => k.clone(),
            None => {
                return Err(VktError::Validation(String::from_str("Key is required")));
            },
        };
        match &self.args.value {
            None => Ok(ConfigPlan::ShowValue(key)),
            Some(v) => Ok(ConfigPlan::SetValue(key, v.clone())),
        }
    }
}

/// The text of the configuration example.
pub open spec fn spec_example_text() -> Seq<char> {
    "# Configuration file example\n# Location: ~/.config/vkt/config.toml\n\n[user]\nname = \"John Doe\"\nemail = \"john.doe@example.com\"\nauto_signoff = true\n\n[remote]\nprovider = \"Gitcode\"\napi_url = \"https://api.gitcode.com/api/v5\"\ntoken = \"your-api-token-here\"\n\n[repo]\nproject_id = \"owner/repo\"\ndefault_branch = \"main\"\n\n[template]\npr_prefix = \"[VIRT-TOOL]\"\n"@
}

/// Builds the malformed-key error.
fn bad_key_error(key: &str) -> (r: VktError)
    ensures
        r@ == spec_bad_key_error(key@),
{
    VktError::Validation(
        String::from_str("Invalid key format '").concat(key).concat(
            "'. Use format: section.field (e.g., user.name)",
        ),
    )
}

/// Renders a boolean configuration value.
fn bool_string(b: bool) -> (r: String)
    ensures
        r@ == spec_bool_string(b),
{
    if b {
        String::from_str("true")
    } else {
        String::from_str("false")
    }
}

} // verus!
