//! Files on the remote side of an SFTP session, as the browser lists them.

use vstd::prelude::*;
use crate::text::{octal, push_radix, string_from_chars};

verus! {

/// A file or directory on the server.
#[derive(Debug, Clone)]
pub struct RemoteFile {
    pub name: String,
    pub path: String,
    pub size: u64,
    pub is_dir: bool,
    /// The permission bits in octal, as `ls` would show them in numbers.
    pub permissions: String,
    /// The modification time, `YYYY-MM-DD HH:MM` in UTC.
    pub modified: Option<String>,
}

/// The last component of a path, as `std::path::Path::file_name` finds it.
pub uninterp spec fn file_name_of(path: Seq<char>) -> Option<Seq<char>>;

/// `std::path::Path::file_name` on `path`, as text.
///
/// Stated: the result is `file_name_of` the path; what the last component
/// is (separators, a final `..`) is left to the name.
#[verifier::external_body]
fn path_file_name(path: &str) -> (r: Option<String>)
    ensures
        match r {
            Some(n) => file_name_of(path@) == Some(n@),
            None => file_name_of(path@) is None,
        },
{
    std::path::Path::new(path).file_name().map(|n| n.to_string_lossy().into_owned())
}

/// Whether permission bits mark a directory: their file-type bits
/// (`S_IFMT`, `0o170000`) are those of a directory (`S_IFDIR`, `0o040000`),
/// missing bits counting as 0.
pub open spec fn is_dir_mode(perm: Option<u32>) -> bool {
    (match perm {
        Some(p) => p,
        None => 0u32,
    } & 0o170000u32) == 0o040000u32
}

/// `ssh2::FileStat::is_dir` on a stat with the permission bits `perm`.
///
/// Stated: what ssh2's source computes, `FileType::from_perm` of the bits
/// (0 where missing) being `Directory`, that is the type bits under
/// `LIBSSH2_SFTP_S_IFMT` equal to `LIBSSH2_SFTP_S_IFDIR`.
#[verifier::external_body]
fn stat_is_dir(perm: Option<u32>) -> (r: bool)
    ensures
        r == is_dir_mode(perm),
{
    ssh2::FileStat { size: None, uid: None, gid: None, perm, atime: None, mtime: None }.is_dir()
}

/// `secs` after the Unix epoch as `%Y-%m-%d %H:%M` in UTC, if chrono can
/// represent that time.
pub uninterp spec fn utc_minute_text(secs: int) -> Option<Seq<char>>;

/// `chrono::DateTime::from_timestamp(secs, 0)` formatted with
/// `%Y-%m-%d %H:%M`.
///
/// Stated: the result is `utc_minute_text` of `secs`, and there is one for
/// every time within 253,000 years of the epoch, as chrono's date range
/// (years -262,142 to 262,142) shows. The calendar arithmetic is left to the
/// name.
#[verifier::external_body]
fn format_utc_minute(secs: i64) -> (r: Option<String>)
    ensures
        match r {
            Some(t) => utc_minute_text(secs as int) == Some(t@),
            None => utc_minute_text(secs as int) is None,
        },
        -8_000_000_000_000 <= secs <= 8_000_000_000_000 ==> r is Some,
{
    chrono::DateTime::from_timestamp(secs, 0).map(|dt| dt.format("%Y-%m-%d %H:%M").to_string())
}

/// The text of a modification time given in seconds after the epoch (read
/// as a signed number, as `as i64` does): its UTC minute, or empty where
/// chrono cannot represent it.
pub open spec fn modified_text(mtime: u64) -> Seq<char> {
    match utc_minute_text((mtime as i64) as int) {
        Some(t) => t,
        None => seq![],
    }
}

/// The last component of `path`, empty where it has none.
pub open spec fn name_of(path: Seq<char>) -> Seq<char> {
    match file_name_of(path) {
        Some(n) => n,
        None => seq![],
    }
}

impl RemoteFile {
    /// The entry for `path`, given its last component as `Path::file_name`
    /// finds it, what the server's stat reports (size, permission bits,
    /// whether it is a directory) and, where the stat has a modification
    /// time, its UTC minute as chrono formats it: the name is empty where
    /// the path has no last component, the size 0 where unknown, the
    /// permissions the low nine bits in octal (0 where unknown), the time
    /// empty where chrono cannot represent it.
    pub fn from_parts(
        file_name: Option<String>,
        path: &str,
        size: Option<u64>,
        perm: Option<u32>,
        is_dir: bool,
        minute: Option<Option<String>>,
    ) -> (r: Self)
        ensures
            r.name@ == match file_name {
                Some(n) => n@,
                None => Seq::<char>::empty(),
            },
            r.path@ == path@,
            r.size == match size {
                Some(s) => s,
                None => 0u64,
            },
            r.is_dir == is_dir,
            r.permissions@ == octal(
                (match perm {
                    Some(p) => p,
                    None => 0u32,
                } & 0o777u32) as nat,
            ),
            match minute {
                Some(Some(t)) => r.modified matches Some(m) && m@ == t@,
                Some(None) => r.modified matches Some(m) && m@ == Seq::<char>::empty(),
                None => r.modified is None,
            },
    {
        let name = match file_name {
            Some(n) => n,
            None => String::new(),
        };
        let bits: u32 = match perm {
            Some(p) => p,
            None => 0,
        } & 0o777;
        let mut digits: Vec<char> = Vec::new();
        push_radix(&mut digits, bits as u64, 8);
        assert(digits@ =~= octal(bits as nat));
        let modified = match minute {
            Some(text) => Some(
                match text {
                    Some(t) => t,
                    None => String::new(),
                },
            ),
            None => None,
        };
        RemoteFile {
            name,
            path: path.to_owned(),
            size: match size {
                Some(s) => s,
                None => 0,
            },
            is_dir,
            permissions: string_from_chars(digits.as_slice()),
            modified,
        }
    }

    /// The entry for `path`, from what the server's stat reports: its size
    /// (0 where unknown), its permission bits (whose type bits say whether it
    /// is a directory, and whose low nine are shown, 0 where unknown) and its
    /// modification time in seconds after the epoch.
    pub fn from_stat(path: &str, size: Option<u64>, perm: Option<u32>, mtime: Option<u64>) -> (r: Self)
        ensures
            r.name@ == name_of(path@),
            r.path@ == path@,
            r.size == match size {
                Some(s) => s,
                None => 0u64,
            },
            r.is_dir == is_dir_mode(perm),
            r.permissions@ == octal(
                (match perm {
                    Some(p) => p,
                    None => 0u32,
                } & 0o777u32) as nat,
            ),
            match mtime {
                Some(t) => r.modified matches Some(m) && m@ == modified_text(t),
                None => r.modified is None,
            },
    {
        let file_name = path_file_name(path);
        let is_dir = stat_is_dir(perm);
        let minute = match mtime {
            Some(t) => Some(format_utc_minute(t as i64)),
            None => None,
        };
        RemoteFile::from_parts(file_name, path, size, perm, is_dir, minute)
    }
}

} // verus!
