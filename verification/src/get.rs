//! Fetching remote files and directories: the decisions and accounting.
//!
//! A requested path is first probed as a file and falls back to a
//! directory listing; a single file is saved under its name; a directory
//! fans out into one download per file, whose results are aggregated
//! afterwards — one file's failure does not cancel its siblings, and the
//! whole operation fails only when every file failed. The downloads and
//! all file I/O happen outside this crate; the decisions, the relative
//! path arithmetic and the aggregation are verified here.

use vstd::prelude::*;

use crate::error::{VktError, VktErrorView};
use crate::strutil::{
    dec_digits, last_segment, last_segment_str, path_sep, push_dec_u64, spec_starts_with,
    starts_with, trim_end_char, trim_leading, trim_start_char, trim_trailing,
};
use crate::types::TreeItem;

verus! {

/// Arguments of a fetch.
#[derive(Debug, Clone)]
pub struct GetArgs {
    /// Remote path to fetch
    pub path: String,
    /// Output directory; the working directory when absent
    pub output: Option<String>,
    /// Overwrite existing local files
    pub force: bool,
}

/// The get command.
#[derive(Debug, Clone)]
pub struct GetCommand {
    /// The fetch arguments
    pub args: GetArgs,
}

/// One download's outcome: the remote path, whether it succeeded, the
/// byte count written, and the failure reason otherwise.
#[derive(Debug, Clone)]
pub struct DownloadResult {
    /// Remote path of the file
    pub path: String,
    /// Whether the download succeeded
    pub success: bool,
    /// Bytes written on success, zero otherwise
    pub size: u64,
    /// The failure reason, when it failed
    pub error: Option<String>,
}

/// The local name a remote path is saved under: its last segment, or the
/// path itself when it has no non-empty last segment.
pub open spec fn spec_file_name(p: Seq<char>) -> Seq<char> {
    let seg = last_segment(trim_trailing(p, path_sep()));
    if seg.len() == 0 {
        p
    } else {
        seg
    }
}

/// The number of successful downloads.
pub open spec fn count_success(s: Seq<DownloadResult>) -> int
    decreases s.len(),
{
    if s.len() == 0 {
        0
    } else {
        count_success(s.drop_last()) + if s.last().success {
            1int
        } else {
            0int
        }
    }
}

/// The total bytes across all downloads.
pub open spec fn total_size(s: Seq<DownloadResult>) -> int
    decreases s.len(),
{
    if s.len() == 0 {
        0
    } else {
        total_size(s.drop_last()) + s.last().size as int
    }
}

/// The byte-count rendering: plain bytes below one kibibyte, tenths of
/// kibibytes below one mebibyte, tenths of mebibytes beyond, rounding
/// half up.
pub open spec fn spec_format_bytes(b: int) -> Seq<char> {
    if b < 1024 {
        dec_digits(b) + "B"@
    } else if b < 1024 * 1024 {
        let tenths = (b * 10 + 512) / 1024;
        dec_digits(tenths / 10) + "."@ + dec_digits(tenths % 10) + "KB"@
    } else {
        let tenths = (b * 10 + 524288) / 1048576;
        dec_digits(tenths / 10) + "."@ + dec_digits(tenths % 10) + "MB"@
    }
}

impl GetCommand {
    /// Create a new get command.
    pub fn new(args: GetArgs) -> (r: GetCommand)
        ensures
            r.args == args,
    {
        GetCommand { args }
    }

    /// The local name a remote path is saved under.
    pub fn get_file_name<'a>(&self, remote_path: &'a str) -> (r: &'a str)
        ensures
            r@ == spec_file_name(remote_path@),
    {
        let trimmed = trim_end_char(remote_path, '/');
        let seg = last_segment_str(trimmed);
        if seg.unicode_len() == 0 {
            remote_path
        } else {
            seg
        }
    }

    /// Whether a download may proceed onto an output path: an existing
    /// file is only overwritten under the force flag; otherwise the
    /// collision is an error naming the path.
    pub fn check_existing_file(&self, exists: bool, path_display: &str) -> (r: Result<
        bool,
        VktError,
    >)
        ensures
            (exists && !self.args.force) ==> (r matches Err(e) && e@ == VktErrorView::Validation(
                "File '"@ + path_display@ + "' already exists, use -f/--force to overwrite"@,
            )),
            !(exists && !self.args.force) ==> r == Result::<bool, VktError>::Ok(true),
    {
        if exists && !self.args.force {
            Err(
                VktError::Validation(
                    String::from_str("File '").concat(path_display).concat(
                        "' already exists, use -f/--force to overwrite",
                    ),
                ),
            )
        } else {
            Ok(true)
        }
    }

    /// Format byte size
    pub fn format_bytes(bytes: usize) -> (r: String)
        ensures
            r@ == spec_format_bytes(bytes as int),
    {
        if bytes < 1024 {
            let mut out = String::new();
            push_dec_u64(&mut out, bytes as u64);
            let r = out.concat("B");
            proof {
                assert(r@ =~= spec_format_bytes(bytes as int));
            }
            r
        } else if bytes < 1024 * 1024 {
            let tenths: u64 = ((bytes as u64) * 10 + 512) / 1024;
            let mut out = String::new();
            push_dec_u64(&mut out, tenths / 10);
            let mut out = out.concat(".");
            push_dec_u64(&mut out, tenths % 10);
            let r = out.concat("KB");
            proof {
                assert(r@ =~= spec_format_bytes(bytes as int));
            }
            r
        } else {
            let wide: u128 = (bytes as u128) * 10 + 524288;
            let tenths: u128 = wide / 1048576;
            let mut out = String::new();
            push_dec_u64(&mut out, (tenths / 10) as u64);
            let mut out = out.concat(".");
            push_dec_u64(&mut out, (tenths % 10) as u64);
            let r = out.concat("MB");
            proof {
                assert(r@ =~= spec_format_bytes(bytes as int));
            }
            r
        }
    }
}

/// The directory decision when the file probe already failed: a listing
/// with entries means a directory, an empty listing means a plain path to
/// try as a file, and a failed listing means the path cannot be reached
/// at all.
pub fn dir_from_listing(path: &str, listing: Result<Vec<TreeItem>, VktError>) -> (r: Result<
    bool,
    VktError,
>)
    ensures
        listing matches Ok(items) ==> r == Result::<bool, VktError>::Ok(items@.len() > 0),
        listing is Err ==> (r matches Err(e) && e@ == VktErrorView::Api(
            "Path '"@ + path@ + "' does not exist or cannot be accessed"@,
        )),
{
    match listing {
        Ok(items) => Ok(items.len() > 0),
        Err(_) => Err(
            VktError::Api(
                String::from_str("Path '").concat(path).concat(
                    "' does not exist or cannot be accessed",
                ),
            ),
        ),
    }
}

/// The local path a downloaded file lands under, relative to the fetched
/// directory: the remainder after the base directory when the remote path
/// continues it, the whole remote path otherwise.
pub fn relative_local_path(remote_path: &str, base_dir: &str) -> (r: String)
    ensures
        spec_starts_with(remote_path@, base_dir@) ==> r@ == trim_leading(
            remote_path@.skip(base_dir@.len() as int),
            path_sep(),
        ),
        !spec_starts_with(remote_path@, base_dir@) ==> r@ == remote_path@,
{
    if starts_with(remote_path, base_dir) {
        let len = remote_path.unicode_len();
        let blen = base_dir.unicode_len();
        let rest = remote_path.substring_char(blen, len);
        proof {
            assert(rest@ =~= remote_path@.skip(base_dir@.len() as int));
        }
        String::from_str(trim_start_char(rest, '/'))
    } else {
        String::from_str(remote_path)
    }
}

/// Filters a listing down to its file entries, in order.
pub open spec fn spec_files_of(s: Seq<TreeItem>) -> Seq<TreeItem>
    decreases s.len(),
{
    if s.len() == 0 {
        Seq::empty()
    } else {
        let rest = spec_files_of(s.drop_last());
        if s.last()@.spec_is_file() {
            rest.push(s.last())
        } else {
            rest
        }
    }
}

/// An explicit copy of a tree entry, equal to the original.
fn clone_item(t: &TreeItem) -> (r: TreeItem)
    ensures
        r == *t,
{
    TreeItem {
        id: t.id.clone(),
        name: t.name.clone(),
        item_type: t.item_type.clone(),
        path: t.path.clone(),
        mode: t.mode.clone(),
    }
}

/// The file entries of a listing, in order; directories are dropped.
pub fn filter_files(items: Vec<TreeItem>) -> (r: Vec<TreeItem>)
    ensures
        r@ == spec_files_of(items@),
{
    let n = items.len();
    let mut out: Vec<TreeItem> = Vec::new();
    proof {
        assert(out@ =~= spec_files_of(items@.take(0)));
    }
    let mut i: usize = 0;
    while i < n
        invariant
            n == items@.len(),
            0 <= i <= n,
            out@ == spec_files_of(items@.take(i as int)),
        decreases n - i,
    {
        proof {
            assert(items@.take(i + 1).drop_last() =~= items@.take(i as int));
            assert(items@.take(i + 1).last() == items@[i as int]);
        }
        if items[i].is_file() {
            let copy = clone_item(&items[i]);
            out.push(copy);
        }
        proof {
            assert(out@ =~= spec_files_of(items@.take(i + 1)));
        }
        i += 1;
    }
    proof {
        assert(items@.take(n as int) =~= items@);
    }
    out
}

/// Sums up a batch of download results: how many succeeded, how many
/// failed, and the total bytes written.
pub fn summarize_downloads(results: &Vec<DownloadResult>) -> (r: (usize, usize, u128))
    ensures
        r.0 == count_success(results@),
        r.1 == results@.len() - count_success(results@),
        r.2 == total_size(results@),
{
    let n = results.len();
    let mut success: usize = 0;
    let mut total: u128 = 0;
    proof {
        assert(count_success(results@.take(0)) == 0);
        assert(total_size(results@.take(0)) == 0);
    }
    let mut i: usize = 0;
    while i < n
        invariant
            n == results@.len(),
            0 <= i <= n,
            success == count_success(results@.take(i as int)),
            total == total_size(results@.take(i as int)),
            success <= i,
            total <= i * (u64::MAX as int),
        decreases n - i,
    {
        proof {
            assert(results@.take(i + 1).drop_last() =~= results@.take(i as int));
            assert(results@.take(i + 1).last() == results@[i as int]);
            assert((i + 1) * (u64::MAX as int) == i * (u64::MAX as int) + u64::MAX) by (
            nonlinear_arith);
        }
        if results[i].success {
            success += 1;
        }
        total += results[i].size as u128;
        i += 1;
    }
    proof {
        assert(results@.take(n as int) =~= results@);
    }
    (success, n - success, total)
}

/// True when a non-empty batch of downloads failed in every part; only
/// then does the whole fetch fail.
pub fn downloads_all_failed(results: &Vec<DownloadResult>) -> (r: bool)
    ensures
        r == (results@.len() > 0 && count_success(results@) == 0),
{
    let (success, _fail, _total) = summarize_downloads(results);
    results.len() > 0 && success == 0
}

} // verus!
