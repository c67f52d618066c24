//! Submission pipeline.
//!
//! Submitting a local file is a linear workflow: validate the target,
//! check the remote for a collision, check that the repository has
//! commits, derive a branch name, then — unless a dry run was asked for —
//! create the branch, upload the file, open a pull request and assign
//! approvers. Every decision of that workflow is the verified `step`
//! state machine here; performing the remote calls between steps happens
//! outside this crate, which hands each outcome back as an event. No step
//! is retried automatically, and every failure surfaces its originating
//! error verbatim.

use vstd::prelude::*;

use crate::config::Config;
use crate::digest::{sha256_hex, spec_sha256_hex};
use crate::encoding::{base64_encode, base64_encoding_of};
use crate::error::{VktError, VktErrorView};
use crate::types::{Branch, FileCommitResponse, FileInfo, PullRequest, TreeItem};
use crate::strutil::{
    dec_digits_i64, last_segment, lower_char, lower_char_exec, path_sep, push_char, push_dec_i64,
    trim_end_char, trim_trailing,
};

verus! {

/// Relies on `chrono::Local::now` and `timestamp`: reads the system
/// clock as seconds since the Unix epoch; nothing is assumed of the
/// value.
#[verifier::external_body]
fn unix_timestamp_now() -> (r: i64) {
    chrono::Local::now().timestamp()
}

/// Relies on `chrono::Local::now` and `to_rfc3339`: renders the current
/// local time; nothing is assumed of the value.
#[verifier::external_body]
fn now_rfc3339() -> (r: String) {
    chrono::Local::now().to_rfc3339()
}

/// Arguments of a submission.
#[derive(Debug, Clone)]
pub struct SubmitArgs {
    /// Local file to submit
    pub local_path: String,
    /// Remote directory the file goes under
    pub target: String,
    /// Commit message
    pub msg: String,
    /// Overwrite a colliding remote file
    pub force: bool,
    /// Plan only, mutating nothing remote
    pub dry_run: bool,
    /// Explicit branch name; derived from the message when absent
    pub branch: Option<String>,
    /// Usernames asked to approve the pull request
    pub reviewers: Vec<String>,
}

/// The submit command.
#[derive(Debug, Clone)]
pub struct SubmitCommand {
    /// The submission arguments
    pub args: SubmitArgs,
}

/// True of the ASCII whitespace that separates words of a message.
pub open spec fn is_space(c: char) -> bool {
    c == ' ' || c == '\t' || c == '\n' || c == '\r'
}

/// `s` without its leading whitespace.
pub open spec fn drop_leading_ws(s: Seq<char>) -> Seq<char>
    decreases s.len(),
{
    if s.len() > 0 && is_space(s.first()) {
        drop_leading_ws(s.drop_first())
    } else {
        s
    }
}

/// The prefix of `s` before its first whitespace.
pub open spec fn take_until_ws(s: Seq<char>) -> Seq<char>
    decreases s.len(),
{
    if s.len() == 0 {
        s
    } else if is_space(s.first()) {
        Seq::empty()
    } else {
        seq![s.first()] + take_until_ws(s.drop_first())
    }
}

/// The first whitespace-separated word of `s`; empty when `s` has none.
pub open spec fn first_word(s: Seq<char>) -> Seq<char> {
    take_until_ws(drop_leading_ws(s))
}

/// A word made ref-safe: colons dropped, separators turned into dashes,
/// ASCII letters lowered.
pub open spec fn spec_sanitized(w: Seq<char>) -> Seq<char>
    decreases w.len(),
{
    if w.len() == 0 {
        Seq::empty()
    } else {
        spec_sanitized(w.drop_last()) + (if w.last() == ':' {
            Seq::<char>::empty()
        } else {
            seq![
                lower_char(
                    if w.last() == '/' {
                        '-'
                    } else {
                        w.last()
                    },
                ),
            ]
        })
    }
}

/// The suffix of an auto-derived branch name: the message's first word —
/// "submit" when it has none — made ref-safe.
pub open spec fn spec_branch_suffix(msg: Seq<char>) -> Seq<char> {
    if first_word(msg).len() == 0 {
        spec_sanitized("submit"@)
    } else {
        spec_sanitized(first_word(msg))
    }
}

/// An auto-derived branch name: a fixed prefix, the timestamp, and the
/// ref-safe first word of the message.
pub open spec fn spec_auto_branch(msg: Seq<char>, ts: int) -> Seq<char> {
    "feat/vkt-submit-"@ + dec_digits_i64(ts) + "-"@ + spec_branch_suffix(msg)
}

/// Dropping leading whitespace keeps the suffix from the first
/// non-whitespace character.
proof fn lemma_drop_ws_skip(s: Seq<char>, k: int)
    requires
        0 <= k <= s.len(),
        forall|j: int| 0 <= j < k ==> is_space(s[j]),
        k < s.len() ==> !is_space(s[k]),
    ensures
        drop_leading_ws(s) == s.skip(k),
    decreases k,
{
    if k == 0 {
        assert(s.len() > 0 ==> !is_space(s.first()));
        assert(s.skip(0) =~= s);
    } else {
        let d = s.drop_first();
        assert(forall|j: int| 0 <= j < k - 1 ==> is_space(d[j]));
        lemma_drop_ws_skip(d, k - 1);
        assert(d.skip(k - 1) =~= s.skip(k));
    }
}

/// The prefix before the first whitespace is determined by its position.
proof fn lemma_take_ws_take(s: Seq<char>, k: int)
    requires
        0 <= k <= s.len(),
        forall|j: int| 0 <= j < k ==> !is_space(s[j]),
        k < s.len() ==> is_space(s[k]),
    ensures
        take_until_ws(s) == s.take(k),
    decreases k,
{
    if k == 0 {
        if s.len() > 0 {
            assert(is_space(s.first()));
        }
        assert(s.take(0) =~= Seq::<char>::empty());
        assert(take_until_ws(s) =~= s.take(0));
    } else {
        assert(!is_space(s.first()));
        let d = s.drop_first();
        assert(forall|j: int| 0 <= j < k - 1 ==> !is_space(d[j]));
        lemma_take_ws_take(d, k - 1);
        assert(seq![s.first()] + d.take(k - 1) =~= s.take(k));
    }
}

/// Executable whitespace test.
fn is_space_exec(c: char) -> (r: bool)
    ensures
        r == is_space(c),
{
    c == ' ' || c == '\t' || c == '\n' || c == '\r'
}

/// The first whitespace-separated word of a message, as a borrowed slice.
fn first_word_str<'a>(s: &'a str) -> (r: &'a str)
    ensures
        r@ == first_word(s@),
{
    let len = s.unicode_len();
    let mut start: usize = 0;
    while start < len && is_space_exec(s.get_char(start))
        invariant
            len == s@.len(),
            0 <= start <= len,
            forall|j: int| 0 <= j < start ==> is_space(s@[j]),
        decreases len - start,
    {
        start += 1;
    }
    proof {
        lemma_drop_ws_skip(s@, start as int);
    }
    let mut end: usize = start;
    while end < len && !is_space_exec(s.get_char(end))
        invariant
            len == s@.len(),
            0 <= start <= end <= len,
            forall|j: int| start <= j < end ==> !is_space(s@[j]),
        decreases len - end,
    {
        end += 1;
    }
    proof {
        let tail = s@.skip(start as int);
        assert(forall|j: int| 0 <= j < end - start ==> !is_space(tail[j]));
        assert(end < len ==> is_space(tail[end - start]));
        lemma_take_ws_take(tail, end - start);
        assert(tail.take(end - start) =~= s@.subrange(start as int, end as int));
    }
    s.substring_char(start, end)
}

/// Appends a word made ref-safe: colons dropped, separators dashed,
/// letters lowered.
fn push_sanitized(out: &mut String, w: &str)
    ensures
        final(out)@ == old(out)@ + spec_sanitized(w@),
{
    let len = w.unicode_len();
    let mut i: usize = 0;
    while i < len
        invariant
            len == w@.len(),
            0 <= i <= len,
            out@ == old(out)@ + spec_sanitized(w@.take(i as int)),
        decreases len - i,
    {
        let c = w.get_char(i);
        if c != ':' {
            let mapped = if c == '/' {
                '-'
            } else {
                c
            };
            push_char(out, lower_char_exec(mapped));
        }
        proof {
            assert(w@.take(i + 1).drop_last() =~= w@.take(i as int));
            assert(w@.take(i + 1).last() == w@[i as int]);
            assert(out@ =~= old(out)@ + spec_sanitized(w@.take(i + 1)));
        }
        i += 1;
    }
    proof {
        assert(w@.take(len as int) =~= w@);
    }
}

impl SubmitCommand {
    /// Create a new submit command.
    pub fn new(args: SubmitArgs) -> (r: SubmitCommand)
        ensures
            r.args == args,
    {
        SubmitCommand { args }
    }

    /// The branch the submission goes to: the explicitly requested name
    /// verbatim when one was given, else a name derived from the current
    /// timestamp and the message's first word, made ref-safe.
    pub fn generate_branch_name(&self, msg: &str) -> (r: String)
        ensures
            self.args.branch matches Some(b) ==> r@ == b@,
            self.args.branch is None ==> exists|ts: int| r@ == spec_auto_branch(msg@, ts),
    {
        match &self.args.branch {
            Some(b) => b.clone(),
            None => {
                let ts = unix_timestamp_now();
                let r = format_branch_name(msg, ts);
                proof {
                    assert(r@ == spec_auto_branch(msg@, ts as int));
                }
                r
            },
        }
    }

    /// The content-addressing digest of the submitted bytes, kept in the
    /// commit message for provenance.
    pub fn generate_file_hash(content: &[u8]) -> (r: String)
        ensures
            r@ == spec_sha256_hex(content@),
            r@.len() == 64,
    {
        sha256_hex(content)
    }

    /// The commit message: the caller's message followed by a trace
    /// block naming the original file, its digest and the submission
    /// time, and — when the configuration asks for it — a sign-off
    /// trailer naming the submitter.
    pub fn generate_commit_message(
        &self,
        msg: &str,
        local_path: &str,
        file_hash: &str,
        config: &Config,
    ) -> (r: String)
        ensures
            exists|now: Seq<char>|
                r@ == spec_commit_message(
                    msg@,
                    local_path@,
                    file_hash@,
                    now,
                    config.user.auto_signoff,
                    config.user.name@,
                    config.user.email@,
                ),
    {
        let now = now_rfc3339();
        let base = String::from_str(msg).concat("\n\nOriginal-File: ").concat(local_path).concat(
            "\nOriginal-File-Hash: ",
        ).concat(file_hash).concat("\nDate: ").concat(now.as_str()).concat("\n");
        let r = if config.user.auto_signoff {
            base.concat("Signed-off-by: ").concat(config.user.name.as_str()).concat(" <").concat(
                config.user.email.as_str(),
            ).concat(">\n")
        } else {
            base
        };
        proof {
            assert(r@ == spec_commit_message(
                msg@,
                local_path@,
                file_hash@,
                now@,
                config.user.auto_signoff,
                config.user.name@,
                config.user.email@,
            ));
        }
        r
    }

    /// The pull-request description: a change-description section with
    /// the caller's message, and a trace section naming the original
    /// file, its digest, the submission time and the submitter.
    pub fn generate_pr_body(
        &self,
        msg: &str,
        local_path: &str,
        file_hash: &str,
        config: &Config,
    ) -> (r: String)
        ensures
            exists|now: Seq<char>|
                r@ == spec_pr_body(
                    msg@,
                    local_path@,
                    file_hash@,
                    now,
                    config.user.name@,
                    config.user.email@,
                ),
    {
        let now = now_rfc3339();
        let r = String::from_str("## Change Description\n").concat(msg).concat(
            "\n\n## Trace Information\n- Original File: ",
        ).concat(local_path).concat("\n- File Hash: ").concat(file_hash).concat(
            "\n- Submission Time: ",
        ).concat(now.as_str()).concat("\n- Submitter: ").concat(config.user.name.as_str()).concat(
            " <",
        ).concat(config.user.email.as_str()).concat(">");
        proof {
            assert(r@ == spec_pr_body(
                msg@,
                local_path@,
                file_hash@,
                now@,
                config.user.name@,
                config.user.email@,
            ));
        }
        r
    }
}

/// An auto-derived branch name for a given timestamp.
pub fn format_branch_name(msg: &str, timestamp: i64) -> (r: String)
    ensures
        r@ == spec_auto_branch(msg@, timestamp as int),
{
    let mut out = String::from_str("feat/vkt-submit-");
    push_dec_i64(&mut out, timestamp);
    push_char(&mut out, '-');
    let w = first_word_str(msg);
    if w.unicode_len() == 0 {
        push_sanitized(&mut out, "submit");
    } else {
        push_sanitized(&mut out, w);
    }
    proof {
        reveal_strlit("-");
        assert("-"@ =~= seq!['-']);
        assert(out@ =~= spec_auto_branch(msg@, timestamp as int));
    }
    out
}

/// The commit message for given trace values.
pub open spec fn spec_commit_message(
    msg: Seq<char>,
    local_path: Seq<char>,
    file_hash: Seq<char>,
    now: Seq<char>,
    signoff: bool,
    name: Seq<char>,
    email: Seq<char>,
) -> Seq<char> {
    let base = msg + "\n\nOriginal-File: "@ + local_path + "\nOriginal-File-Hash: "@ + file_hash
        + "\nDate: "@ + now + "\n"@;
    if signoff {
        base + "Signed-off-by: "@ + name + " <"@ + email + ">\n"@
    } else {
        base
    }
}

/// The pull-request description for given trace values.
pub open spec fn spec_pr_body(
    msg: Seq<char>,
    local_path: Seq<char>,
    file_hash: Seq<char>,
    now: Seq<char>,
    name: Seq<char>,
    email: Seq<char>,
) -> Seq<char> {
    "## Change Description\n"@ + msg + "\n\n## Trace Information\n- Original File: "@ + local_path
        + "\n- File Hash: "@ + file_hash + "\n- Submission Time: "@ + now + "\n- Submitter: "@
        + name + " <"@ + email + ">"@
}

/// The remote path a submission writes to: the target directory without
/// its trailing separators, one separator, and the file name.
pub fn make_target_path(target: &str, file_name: &str) -> (r: String)
    ensures
        r@ == trim_trailing(target@, path_sep()) + "/"@ + file_name@,
{
    String::from_str(trim_end_char(target, '/')).concat("/").concat(file_name)
}

/// Where the submission stands. Each waiting state names the remote
/// outcome it expects next; the workflow is not resumable, so a failure
/// is terminal and a re-run starts over.
#[derive(Debug)]
pub enum SubmitState {
    /// Nothing has happened yet
    Start,
    /// The remote collision probe on the target path is under way
    AwaitingProbe { target_path: String },
    /// The repository-readiness listing is under way
    AwaitingTree { target_path: String },
    /// A dry run stopped here, after planning branch and target
    DryRunReported { target_path: String, branch: String },
    /// Branch creation is under way
    AwaitingBranch { target_path: String, branch: String },
    /// The local file is being read
    AwaitingFile { target_path: String, branch: String },
    /// The upsert of the file is under way
    AwaitingUpload { target_path: String, branch: String, content_hash: String },
    /// Pull-request creation is under way
    AwaitingPullRequest { target_path: String, branch: String, content_hash: String },
    /// The approver request is under way
    AwaitingReviewers { pr: PullRequest },
    /// The submission went through
    Succeeded { pr: PullRequest },
    /// The submission failed; the error is the originating one, verbatim
    Failed { error: VktError },
}

/// The outcome of the work a state was waiting on.
#[derive(Debug)]
pub enum SubmitEvent {
    /// Local facts about the file to submit
    Begin { file_exists: bool, file_is_dir: bool },
    /// Outcome of the collision probe on the default branch
    TargetProbed(Result<FileInfo, VktError>),
    /// Outcome of the non-recursive root listing on the default branch
    TreeListed(Result<Vec<TreeItem>, VktError>),
    /// Outcome of the branch creation
    BranchCreated(Result<Branch, VktError>),
    /// Outcome of reading the local file
    FileRead(Result<Vec<u8>, VktError>),
    /// Outcome of the file upsert
    FileUploaded(Result<FileCommitResponse, VktError>),
    /// Outcome of the pull-request creation
    PullRequestOpened(Result<PullRequest, VktError>),
    /// Outcome of the approver request
    ReviewersAssigned(Result<(), VktError>),
}

/// The remote or local work the caller performs next; its outcome comes
/// back as the next event.
#[derive(Debug)]
pub enum SubmitAction {
    /// Probe the file's metadata on a ref
    ProbeTargetFile { path: String, reference: String },
    /// List the repository root, non-recursively, on a ref
    ListRootTree { reference: String },
    /// Create a branch from a source branch
    CreateBranch { name: String, source: String },
    /// Read the local file's bytes
    ReadLocalFile { path: String },
    /// Upsert the file on the branch
    UploadFile {
        path: String,
        content_base64: String,
        branch: String,
        message: String,
        author_name: String,
        author_email: String,
    },
    /// Open the pull request
    OpenPullRequest { title: String, head: String, base: String, body: String },
    /// Ask the approvers onto the pull request
    AssignReviewers { pr_number: u64, reviewers: Vec<String> },
    /// The workflow is over; perform nothing
    Halt,
}

/// True of the actions that change remote state; probing, listing and
/// reading are observations.
pub open spec fn is_mutating(a: SubmitAction) -> bool {
    match a {
        SubmitAction::CreateBranch { .. } => true,
        SubmitAction::UploadFile { .. } => true,
        SubmitAction::OpenPullRequest { .. } => true,
        SubmitAction::AssignReviewers { .. } => true,
        _ => false,
    }
}

/// The event shape each state expects; terminal states expect none.
pub open spec fn state_expects(state: SubmitState, event: SubmitEvent) -> bool {
    match state {
        SubmitState::Start => event is Begin,
        SubmitState::AwaitingProbe { .. } => event is TargetProbed,
        SubmitState::AwaitingTree { .. } => event is TreeListed,
        SubmitState::AwaitingBranch { .. } => event is BranchCreated,
        SubmitState::AwaitingFile { .. } => event is FileRead,
        SubmitState::AwaitingUpload { .. } => event is FileUploaded,
        SubmitState::AwaitingPullRequest { .. } => event is PullRequestOpened,
        SubmitState::AwaitingReviewers { .. } => event is ReviewersAssigned,
        SubmitState::DryRunReported { .. } => false,
        SubmitState::Succeeded { .. } => false,
        SubmitState::Failed { .. } => false,
    }
}

/// The remote path the submission targets: the target directory joined
/// with the local file's name.
pub open spec fn spec_target_of(args: SubmitArgs) -> Seq<char> {
    trim_trailing(args.target@, path_sep()) + "/"@ + last_segment(
        trim_trailing(args.local_path@, path_sep()),
    )
}

/// True of the branch name the submission uses: the explicitly requested
/// one verbatim, else an auto-derived one for some timestamp.
pub open spec fn spec_branch_choice(args: SubmitArgs, b: Seq<char>) -> bool {
    match args.branch {
        Some(eb) => b == eb@,
        None => exists|ts: int| b == spec_auto_branch(args.msg@, ts),
    }
}

/// True of a commit message generated for these trace values at some
/// submission time.
pub open spec fn spec_is_commit_message(
    m: Seq<char>,
    msg: Seq<char>,
    local_path: Seq<char>,
    file_hash: Seq<char>,
    signoff: bool,
    name: Seq<char>,
    email: Seq<char>,
) -> bool {
    exists|now: Seq<char>| m == spec_commit_message(msg, local_path, file_hash, now, signoff, name, email)
}

/// True of a pull-request description generated for these trace values at
/// some submission time.
pub open spec fn spec_is_pr_body(
    m: Seq<char>,
    msg: Seq<char>,
    local_path: Seq<char>,
    file_hash: Seq<char>,
    name: Seq<char>,
    email: Seq<char>,
) -> bool {
    exists|now: Seq<char>| m == spec_pr_body(msg, local_path, file_hash, now, name, email)
}

impl SubmitCommand {
    /// One decision of the submission workflow: given where it stands and
    /// the outcome of the work it was waiting on, the next state and the
    /// next action. A missing or directory-shaped local file fails
    /// validation; a remote collision without the overwrite flag fails
    /// with a conflict naming the path, before anything remote is
    /// mutated; an empty root listing fails as an uninitialized
    /// repository, a fatal and non-retryable error; a dry run stops after
    /// planning, and until the readiness check has passed no mutating
    /// action is ever emitted; a not-found answer to a probe is a valid negative, while
    /// every other failure is terminal and carried verbatim; and asking
    /// approvers is best effort — its outcome never fails the
    /// submission.
    pub fn step(&self, config: &Config, state: SubmitState, event: SubmitEvent) -> (r: (
        SubmitState,
        SubmitAction,
    ))
        requires
            state_expects(state, event),
        ensures
            (state is Start || state is AwaitingProbe) ==> !is_mutating(r.1),
            (state is AwaitingTree && self.args.dry_run) ==> !is_mutating(r.1),
            ({
                let next = r.0;
                let action = r.1;
                match state {
                    SubmitState::Start => match event {
                        SubmitEvent::Begin { file_exists, file_is_dir } => {
                            if !file_exists {
                                &&& next matches SubmitState::Failed { error } && error@
                                    == VktErrorView::Validation(
                                    "File does not exist: "@ + self.args.local_path@,
                                )
                                &&& action is Halt
                            } else if file_is_dir {
                                &&& next matches SubmitState::Failed { error } && error@
                                    == VktErrorView::Validation(
                                    "Directory submission not yet supported, please specify a single file"@,
                                )
                                &&& action is Halt
                            } else if last_segment(
                                trim_trailing(self.args.local_path@, path_sep()),
                            ).len() == 0 {
                                &&& next matches SubmitState::Failed { error } && error@
                                    == VktErrorView::Validation("Invalid filename"@)
                                &&& action is Halt
                            } else {
                                &&& next matches SubmitState::AwaitingProbe { target_path }
                                    && target_path@ == spec_target_of(self.args) && (
                                action matches SubmitAction::ProbeTargetFile { path, reference }
                                    && path@ == spec_target_of(self.args) && reference@
                                    == config.repo.default_branch@)
                            }
                        },
                        _ => true,
                    },
                    SubmitState::AwaitingProbe { target_path } => match event {
                        SubmitEvent::TargetProbed(res) => {
                            let found = res is Ok;
                            let aborted = res is Ok && !self.args.force;
                            if aborted {
                                &&& next matches SubmitState::Failed { error } && error@
                                    == VktErrorView::Conflict(
                                    "Remote file already exists: "@ + target_path@
                                        + ". Use --force to overwrite"@,
                                )
                                &&& action is Halt
                            } else if res is Ok || (res matches Err(e) && e is ApiNotFound) {
                                &&& next matches SubmitState::AwaitingTree { target_path: t2 }
                                    && t2 == target_path && (
                                action matches SubmitAction::ListRootTree { reference }
                                    && reference@ == config.repo.default_branch@)
                            } else {
                                &&& res matches Err(e) ==> (next matches SubmitState::Failed {
                                    error,
                                } && error == e)
                                &&& action is Halt
                            }
                        },
                        _ => true,
                    },
                    SubmitState::AwaitingTree { target_path } => match event {
                        SubmitEvent::TreeListed(res) => {
                            let ready = res matches Ok(items) && items@.len() > 0;
                            let empty_repo = (res matches Ok(items) && items@.len() == 0) || (
                            res matches Err(e) && e is ApiNotFound);
                            if ready {
                                if self.args.dry_run {
                                    &&& next matches SubmitState::DryRunReported {
                                        target_path: t2,
                                        branch,
                                    } && t2 == target_path && spec_branch_choice(
                                        self.args,
                                        branch@,
                                    )
                                    &&& action is Halt
                                } else {
                                    &&& next matches SubmitState::AwaitingBranch {
                                        target_path: t2,
                                        branch,
                                    } && t2 == target_path && spec_branch_choice(
                                        self.args,
                                        branch@,
                                    ) && (action matches SubmitAction::CreateBranch {
                                        name,
                                        source,
                                    } && name@ == branch@ && source@
                                        == config.repo.default_branch@)
                                }
                            } else if empty_repo {
                                &&& next matches SubmitState::Failed { error } && error@
                                    == VktErrorView::Validation(
                                    "Repository not initialized. Please create a README file via web UI first."@,
                                )
                                &&& action is Halt
                            } else {
                                &&& res matches Err(e) ==> (next matches SubmitState::Failed {
                                    error,
                                } && error == e)
                                &&& action is Halt
                            }
                        },
                        _ => true,
                    },
                    SubmitState::AwaitingBranch { target_path, branch } => match event {
                        SubmitEvent::BranchCreated(res) => match res {
                            Ok(_) => {
                                &&& next matches SubmitState::AwaitingFile {
                                    target_path: t2,
                                    branch: b2,
                                } && t2 == target_path && b2 == branch && (
                                action matches SubmitAction::ReadLocalFile { path } && path@
                                    == self.args.local_path@)
                            },
                            Err(e) => {
                                &&& next matches SubmitState::Failed { error } && error == e
                                &&& action is Halt
                            },
                        },
                        _ => true,
                    },
                    SubmitState::AwaitingFile { target_path, branch } => match event {
                        SubmitEvent::FileRead(res) => match res {
                            Ok(bytes) => {
                                &&& next matches SubmitState::AwaitingUpload {
                                    target_path: t2,
                                    branch: b2,
                                    content_hash,
                                } && t2 == target_path && b2 == branch && content_hash@
                                    == spec_sha256_hex(bytes@) && (
                                action matches SubmitAction::UploadFile {
                                    path,
                                    content_base64,
                                    branch: ab,
                                    message,
                                    author_name,
                                    author_email,
                                } && path == target_path && content_base64@
                                    == base64_encoding_of(bytes@) && ab == branch
                                    && spec_is_commit_message(
                                    message@,
                                    self.args.msg@,
                                    self.args.local_path@,
                                    spec_sha256_hex(bytes@),
                                    config.user.auto_signoff,
                                    config.user.name@,
                                    config.user.email@,
                                ) && author_name@ == config.user.name@ && author_email@
                                    == config.user.email@)
                            },
                            Err(e) => {
                                &&& next matches SubmitState::Failed { error } && error == e
                                &&& action is Halt
                            },
                        },
                        _ => true,
                    },
                    SubmitState::AwaitingUpload { target_path, branch, content_hash } => match event {
                        SubmitEvent::FileUploaded(res) => match res {
                            Ok(_) => {
                                &&& next matches SubmitState::AwaitingPullRequest {
                                    target_path: t2,
                                    branch: b2,
                                    content_hash: h2,
                                } && t2 == target_path && b2 == branch && h2 == content_hash && (
                                action matches SubmitAction::OpenPullRequest {
                                    title,
                                    head,
                                    base,
                                    body,
                                } && title@ == config.template.pr_prefix@ + " "@ + self.args.msg@
                                    && head == branch && base@ == config.repo.default_branch@
                                    && spec_is_pr_body(
                                    body@,
                                    self.args.msg@,
                                    self.args.local_path@,
                                    content_hash@,
                                    config.user.name@,
                                    config.user.email@,
                                ))
                            },
                            Err(e) => {
                                &&& next matches SubmitState::Failed { error } && error == e
                                &&& action is Halt
                            },
                        },
                        _ => true,
                    },
                    SubmitState::AwaitingPullRequest { .. } => match event {
                        SubmitEvent::PullRequestOpened(res) => match res {
                            Ok(pr) => {
                                if self.args.reviewers@.len() == 0 {
                                    &&& next matches SubmitState::Succeeded { pr: p2 } && p2 == pr
                                    &&& action is Halt
                                } else {
                                    &&& next matches SubmitState::AwaitingReviewers { pr: p2 }
                                        && p2 == pr && (
                                    action matches SubmitAction::AssignReviewers {
                                        pr_number,
                                        reviewers,
                                    } && pr_number == pr.number && reviewers@
                                        == self.args.reviewers@)
                                }
                            },
                            Err(e) => {
                                &&& next matches SubmitState::Failed { error } && error == e
                                &&& action is Halt
                            },
                        },
                        _ => true,
                    },
                    SubmitState::AwaitingReviewers { pr } => match event {
                        SubmitEvent::ReviewersAssigned(_) => {
                            &&& next matches SubmitState::Succeeded { pr: p2 } && p2 == pr
                            &&& action is Halt
                        },
                        _ => true,
                    },
                    _ => true,
                }
            }),
    {
        match state {
            SubmitState::Start => match event {
                SubmitEvent::Begin { file_exists, file_is_dir } => {
                    if !file_exists {
                        let error = VktError::Validation(
                            String::from_str("File does not exist: ").concat(
                                self.args.local_path.as_str(),
                            ),
                        );
                        (SubmitState::Failed { error }, SubmitAction::Halt)
                    } else if file_is_dir {
                        let error = VktError::Validation(
                            String::from_str(
                                "Directory submission not yet supported, please specify a single file",
                            ),
                        );
                        (SubmitState::Failed { error }, SubmitAction::Halt)
                    } else {
                        let trimmed = trim_end_char(self.args.local_path.as_str(), '/');
                        let file_name = crate::strutil::last_segment_str(trimmed);
                        if file_name.unicode_len() == 0 {
                            let error = VktError::Validation(String::from_str("Invalid filename"));
                            (SubmitState::Failed { error }, SubmitAction::Halt)
                        } else {
                            let target_path = make_target_path(self.args.target.as_str(), file_name);
                            let probe_path = target_path.clone();
                            let reference = config.repo.default_branch.clone();
                            (
                                SubmitState::AwaitingProbe { target_path },
                                SubmitAction::ProbeTargetFile { path: probe_path, reference },
                            )
                        }
                    }
                },
                _ => vstd::pervasive::unreached(),
            },
            SubmitState::AwaitingProbe { target_path } => match event {
                SubmitEvent::TargetProbed(res) => match res {
                    Ok(_) => {
                        if !self.args.force {
                            let error = VktError::Conflict(
                                String::from_str("Remote file already exists: ").concat(
                                    target_path.as_str(),
                                ).concat(". Use --force to overwrite"),
                            );
                            (SubmitState::Failed { error }, SubmitAction::Halt)
                        } else {
                            let reference = config.repo.default_branch.clone();
                            (
                                SubmitState::AwaitingTree { target_path },
                                SubmitAction::ListRootTree { reference },
                            )
                        }
                    },
                    Err(e) => {
                        if e.is_not_found() {
                            let reference = config.repo.default_branch.clone();
                            (
                                SubmitState::AwaitingTree { target_path },
                                SubmitAction::ListRootTree { reference },
                            )
                        } else {
                            (SubmitState::Failed { error: e }, SubmitAction::Halt)
                        }
                    },
                },
                _ => vstd::pervasive::unreached(),
            },
            SubmitState::AwaitingTree { target_path } => match event {
                SubmitEvent::TreeListed(res) => {
                    let outcome: Result<bool, VktError> = match res {
                        Ok(items) => Ok(items.len() > 0),
                        Err(e) => {
                            if e.is_not_found() {
                                Ok(false)
                            } else {
                                Err(e)
                            }
                        },
                    };
                    match outcome {
                        Ok(true) => {
                            let branch = self.generate_branch_name(self.args.msg.as_str());
                            if self.args.dry_run {
                                (
                                    SubmitState::DryRunReported { target_path, branch },
                                    SubmitAction::Halt,
                                )
                            } else {
                                let name = branch.clone();
                                let source = config.repo.default_branch.clone();
                                (
                                    SubmitState::AwaitingBranch { target_path, branch },
                                    SubmitAction::CreateBranch { name, source },
                                )
                            }
                        },
                        Ok(false) => {
                            let error = VktError::Validation(
                                String::from_str(
                                    "Repository not initialized. Please create a README file via web UI first.",
                                ),
                            );
                            (SubmitState::Failed { error }, SubmitAction::Halt)
                        },
                        Err(e) => (SubmitState::Failed { error: e }, SubmitAction::Halt),
                    }
                },
                _ => vstd::pervasive::unreached(),
            },
            SubmitState::AwaitingBranch { target_path, branch } => match event {
                SubmitEvent::BranchCreated(res) => match res {
                    Ok(_) => {
                        let path = self.args.local_path.clone();
                        (
                            SubmitState::AwaitingFile { target_path, branch },
                            SubmitAction::ReadLocalFile { path },
                        )
                    },
                    Err(e) => (SubmitState::Failed { error: e }, SubmitAction::Halt),
                },
                _ => vstd::pervasive::unreached(),
            },
            SubmitState::AwaitingFile { target_path, branch } => match event {
                SubmitEvent::FileRead(res) => match res {
                    Ok(bytes) => {
                        let content_hash = Self::generate_file_hash(bytes.as_slice());
                        let content_base64 = base64_encode(bytes.as_slice());
                        let message = self.generate_commit_message(
                            self.args.msg.as_str(),
                            self.args.local_path.as_str(),
                            content_hash.as_str(),
                            config,
                        );
                        let path = target_path.clone();
                        let ab = branch.clone();
                        let author_name = config.user.name.clone();
                        let author_email = config.user.email.clone();
                        (
                            SubmitState::AwaitingUpload { target_path, branch, content_hash },
                            SubmitAction::UploadFile {
                                path,
                                content_base64,
                                branch: ab,
                                message,
                                author_name,
                                author_email,
                            },
                        )
                    },
                    Err(e) => (SubmitState::Failed { error: e }, SubmitAction::Halt),
                },
                _ => vstd::pervasive::unreached(),
            },
            SubmitState::AwaitingUpload { target_path, branch, content_hash } => match event {
                SubmitEvent::FileUploaded(res) => match res {
                    Ok(_) => {
                        let title = String::from_str(config.template.pr_prefix.as_str()).concat(
                            " ",
                        ).concat(self.args.msg.as_str());
                        let body = self.generate_pr_body(
                            self.args.msg.as_str(),
                            self.args.local_path.as_str(),
                            content_hash.as_str(),
                            config,
                        );
                        let head = branch.clone();
                        let base = config.repo.default_branch.clone();
                        (
                            SubmitState::AwaitingPullRequest { target_path, branch, content_hash },
                            SubmitAction::OpenPullRequest { title, head, base, body },
                        )
                    },
                    Err(e) => (SubmitState::Failed { error: e }, SubmitAction::Halt),
                },
                _ => vstd::pervasive::unreached(),
            },
            SubmitState::AwaitingPullRequest { target_path: _, branch: _, content_hash: _ } => match event {
                SubmitEvent::PullRequestOpened(res) => match res {
                    Ok(pr) => {
                        if self.args.reviewers.len() == 0 {
                            (SubmitState::Succeeded { pr }, SubmitAction::Halt)
                        } else {
                            let pr_number = pr.number;
                            let req = crate::provider::build_reviewers_request(
                                &self.args.reviewers,
                            );
                            proof {
                                assert(req.reviewers@ == self.args.reviewers@);
                            }
                            (
                                SubmitState::AwaitingReviewers { pr },
                                SubmitAction::AssignReviewers {
                                    pr_number,
                                    reviewers: req.reviewers,
                                },
                            )
                        }
                    },
                    Err(e) => (SubmitState::Failed { error: e }, SubmitAction::Halt),
                },
                _ => vstd::pervasive::unreached(),
            },
            SubmitState::AwaitingReviewers { pr } => match event {
                SubmitEvent::ReviewersAssigned(_) => (
                    SubmitState::Succeeded { pr },
                    SubmitAction::Halt,
                ),
                _ => vstd::pervasive::unreached(),
            },
            SubmitState::DryRunReported { .. } => vstd::pervasive::unreached(),
            SubmitState::Succeeded { .. } => vstd::pervasive::unreached(),
            SubmitState::Failed { .. } => vstd::pervasive::unreached(),
        }
    }
}

} // verus!
