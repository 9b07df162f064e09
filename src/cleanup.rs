use vstd::prelude::*;

verus! {

/// Seconds in one day of the retention window.
pub const SECS_PER_DAY: u64 = 86400;

/// Whether a file last modified at `modified` is past a retention window of
/// `days` days at time `now` (all in seconds since the Unix epoch). The
/// cutoff `now - days * 86400` may lie before the epoch, in which case nothing
/// is past it.
pub open spec fn expired(modified: int, now: int, days: int) -> bool {
    modified < now - days * 86400
}

/// Decides whether a file modified at `modified` is older than the cutoff
/// `now - days * 86400`.
pub fn is_expired(modified: u64, now: u64, days: u64) -> (r: bool)
    ensures
        r == expired(modified as int, now as int, days as int),
{
    match days.checked_mul(SECS_PER_DAY) {
        None => false,
        Some(window) => {
            if window > now {
                false
            } else {
                modified < now - window
            }
        },
    }
}

/// Whether the regex crate accepts `pattern` and, if so, whether it finds a
/// match anywhere in `text`; `None` where the pattern is refused.
pub uninterp spec fn regex_verdict(pattern: Seq<char>, text: Seq<char>) -> Option<bool>;

/// Relies on `regex::Regex::new`, which refuses a malformed or oversized
/// pattern, and `Regex::is_match`, which reports a match anywhere in the
/// text; both depend on their arguments alone.
#[verifier::external_body]
pub(crate) fn pattern_matches(pattern: &str, text: &str) -> (r: Result<bool, regex::Error>)
    ensures
        r matches Ok(b) ==> regex_verdict(pattern@, text@) == Some(b),
        r is Err ==> regex_verdict(pattern@, text@) is None,
{
    match regex::Regex::new(pattern) {
        Ok(re) => Ok(re.is_match(text)),
        Err(e) => Err(e),
    }
}

#[verifier::external_type_specification]
#[verifier::external_body]
pub struct ExRegexError(regex::Error);

/// A filter that is given and not empty; an empty one selects every name.
pub open spec fn active_filter(filter: Option<&str>) -> Option<Seq<char>> {
    match filter {
        Some(p) => if p@.len() > 0 { Some(p@) } else { None },
        None => None,
    }
}

/// Whether a name passes the filter: always without one, else as the regex
/// decides (`None` where the pattern is refused).
pub open spec fn name_verdict(filter: Option<Seq<char>>, name: Seq<char>) -> Option<bool> {
    match filter {
        None => Some(true),
        Some(p) => regex_verdict(p, name),
    }
}

/// Why the age of a listed file could not be read, with the host's words.
#[derive(Debug)]
pub enum StatFailure {
    /// The file's metadata could not be read.
    Metadata(String),
    /// The metadata holds no modification time.
    ModifiedTime(String),
    /// The modification time lies before the Unix epoch.
    BeforeEpoch(String),
}

/// What the host learned of a listed entry.
#[derive(Debug)]
pub enum EntryKind {
    Directory,
    /// A file, with its modification time in seconds since the Unix epoch.
    File(Result<u64, StatFailure>),
}

/// One entry of a directory listing: its name (`None` where the name is not
/// valid text) and what it is.
#[derive(Debug)]
pub struct DirEntryInfo {
    pub name: Option<String>,
    pub kind: EntryKind,
}

/// The decision for one listed entry.
#[derive(Debug)]
pub enum CleanAction {
    /// Leave the entry as it is.
    Keep,
    /// Remove the file at `path`; `name` is its name in the directory.
    Delete { path: String, name: String },
    /// Leave the entry and write this message to the log.
    Report(String),
}

pub enum CleanActionView {
    Keep,
    Delete { path: Seq<char>, name: Seq<char> },
    Report(Seq<char>),
}

impl View for CleanAction {
    type V = CleanActionView;

    open spec fn view(&self) -> CleanActionView {
        match self {
            CleanAction::Keep => CleanActionView::Keep,
            CleanAction::Delete { path, name } => CleanActionView::Delete { path: path@, name: name@ },
            CleanAction::Report(m) => CleanActionView::Report(m@),
        }
    }
}

pub open spec fn conversion_message() -> Seq<char> {
    "Error = Log cleaner, could not convert file name"@
}

pub open spec fn filter_message(pattern: Seq<char>) -> Seq<char> {
    "Error = Log cleaner, invalid filter pattern "@ + pattern
}

pub open spec fn listing_message(detail: Seq<char>) -> Seq<char> {
    "Error = Log cleaner, could not read directory: "@ + detail
}

/// The message for a failure about the file `name`.
pub open spec fn file_message(what: Seq<char>, name: Seq<char>, detail: Seq<char>) -> Seq<char> {
    "Error = Log cleaner, "@ + what + name + " | "@ + detail
}

pub open spec fn stat_failure_message(f: StatFailure, name: Seq<char>) -> Seq<char> {
    match f {
        StatFailure::Metadata(d) => file_message("could not read metadata from file "@, name, d@),
        StatFailure::ModifiedTime(d) => file_message("could not read modified time from file "@, name, d@),
        StatFailure::BeforeEpoch(d) => file_message("could not get modified time for file "@, name, d@),
    }
}

pub open spec fn delete_message(name: Seq<char>, detail: Seq<char>) -> Seq<char> {
    file_message("could not delete file "@, name, detail)
}

/// The decision for one entry of the directory `dir`, listed at `now`,
/// with a retention window of `days` days.
pub open spec fn entry_decision(
    dir: Seq<char>,
    separator: Seq<char>,
    filter: Option<Seq<char>>,
    now: int,
    days: int,
    e: DirEntryInfo,
) -> CleanActionView {
    match e.name {
        None => CleanActionView::Report(conversion_message()),
        Some(n) => match name_verdict(filter, n@) {
            None => CleanActionView::Report(filter_message(filter->0)),
            Some(false) => CleanActionView::Keep,
            Some(true) => match e.kind {
                EntryKind::Directory => CleanActionView::Keep,
                EntryKind::File(Err(f)) => CleanActionView::Report(stat_failure_message(f, n@)),
                EntryKind::File(Ok(m)) => if expired(m as int, now, days) {
                    CleanActionView::Delete { path: dir + separator + n@, name: n@ }
                } else {
                    CleanActionView::Keep
                },
            },
        },
    }
}

fn file_message_text(what: &str, name: &str, detail: &str) -> (r: String)
    ensures
        r@ == file_message(what@, name@, detail@),
{
    let mut s = String::from_str("Error = Log cleaner, ");
    s.append(what);
    s.append(name);
    s.append(" | ");
    s.append(detail);
    s
}

/// The message for a file that could not be removed.
pub fn delete_failure_message(name: &str, detail: &str) -> (r: String)
    ensures
        r@ == delete_message(name@, detail@),
{
    file_message_text("could not delete file ", name, detail)
}

/// The message for a directory that could not be listed.
pub fn listing_failure_message(detail: &str) -> (r: String)
    ensures
        r@ == listing_message(detail@),
{
    let mut s = String::from_str("Error = Log cleaner, could not read directory: ");
    s.append(detail);
    s
}

/// The message for a filter pattern that the regex crate refuses.
pub fn filter_failure_message(pattern: &str) -> (r: String)
    ensures
        r@ == filter_message(pattern@),
{
    let mut s = String::from_str("Error = Log cleaner, invalid filter pattern ");
    s.append(pattern);
    s
}

fn stat_failure_text(f: &StatFailure, name: &str) -> (r: String)
    ensures
        r@ == stat_failure_message(*f, name@),
{
    match f {
        StatFailure::Metadata(d) => file_message_text("could not read metadata from file ", name, d.as_str()),
        StatFailure::ModifiedTime(d) => file_message_text("could not read modified time from file ", name, d.as_str()),
        StatFailure::BeforeEpoch(d) => file_message_text("could not get modified time for file ", name, d.as_str()),
    }
}

/// Decides what becomes of one listed entry of `dir`: entries whose name is
/// not text are reported, names the filter rejects are kept, directories are
/// kept, files whose age cannot be read are reported, and files older than
/// the cutoff are removed.
pub fn decide_entry(
    dir: &str,
    separator: &str,
    filter: Option<&str>,
    now: u64,
    days: u64,
    entry: &DirEntryInfo,
) -> (r: CleanAction)
    ensures
        r@ == entry_decision(dir@, separator@, active_filter(filter), now as int, days as int, *entry),
{
    let name: &String = match &entry.name {
        None => return CleanAction::Report(String::from_str("Error = Log cleaner, could not convert file name")),
        Some(n) => n,
    };
    match filter {
        Some(p) => {
            if !p.is_empty() {
                match pattern_matches(p, name.as_str()) {
                    Err(_) => return CleanAction::Report(filter_failure_message(p)),
                    Ok(false) => return CleanAction::Keep,
                    Ok(true) => {},
                }
            }
        },
        None => {},
    }
    match &entry.kind {
        EntryKind::Directory => CleanAction::Keep,
        EntryKind::File(Err(f)) => CleanAction::Report(stat_failure_text(f, name.as_str())),
        EntryKind::File(Ok(m)) => {
            if is_expired(*m, now, days) {
                let mut path = String::from_str(dir);
                path.append(separator);
                path.append(name.as_str());
                CleanAction::Delete { path, name: name.clone() }
            } else {
                CleanAction::Keep
            }
        },
    }
}

} // verus!
