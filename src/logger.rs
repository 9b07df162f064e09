use vstd::prelude::*;

use crate::cleanup::{
    active_filter, decide_entry, entry_decision, filter_failure_message, filter_message,
    listing_failure_message, listing_message, pattern_matches, regex_verdict, CleanAction,
    CleanActionView, DirEntryInfo,
};
use crate::platform::Platform;
use crate::stamp::{render, render_at, LocalStamp};

verus! {

/// Text appended to a file: the file's path and the characters added at its end.
#[derive(Debug)]
pub struct Append {
    pub file: String,
    pub text: String,
}

pub struct AppendView {
    pub file: Seq<char>,
    pub text: Seq<char>,
}

impl View for Append {
    type V = AppendView;

    open spec fn view(&self) -> AppendView {
        AppendView { file: self.file@, text: self.text@ }
    }
}

/// The log files of a directory, by path, after an append: the file is created
/// empty where absent, and the text goes at its end.
pub open spec fn after_append(files: Map<Seq<char>, Seq<char>>, a: AppendView) -> Map<Seq<char>, Seq<char>> {
    let before = if files.contains_key(a.file) { files[a.file] } else { Seq::<char>::empty() };
    files.insert(a.file, before + a.text)
}

/// Why a logger could not be set up.
#[derive(Clone, Copy, Debug, PartialEq, Eq, Structural)]
pub enum SetupError {
    /// The platform has no known line terminator.
    UnsupportedPlatform,
    /// The file-name template cannot be rendered.
    InvalidFileNameTemplate,
}

/// The configuration of a logger.
pub struct LoggerView {
    /// The directory of the log files, with its trailing separator.
    pub path: Seq<char>,
    /// The date template that renders to a whole file name.
    pub file_name_format: Seq<char>,
    /// The date template that renders to each record's prefix.
    pub line_date_format: Seq<char>,
    /// How many days files are kept by cleanup; `None` disables cleanup.
    pub days_keep: Option<u64>,
    pub platform: Platform,
}

/// A record as it lands in the file: the rendered time stamp, the text as
/// given, and the line terminator, with nothing between them.
pub open spec fn record(timestamp: Seq<char>, line: Seq<char>, terminator: Seq<char>) -> Seq<char> {
    timestamp + line + terminator
}

/// The log file that a logger writes to at `now`.
pub open spec fn log_file_at(l: LoggerView, now: LocalStamp) -> Option<Seq<char>> {
    match render_at(l.file_name_format, now) {
        Some(n) => Some(l.path + n),
        None => None,
    }
}

/// What setting up a logger appends, at `now`: one line terminator to the
/// current log file, which marks the start of a session.
pub open spec fn setup_outcome(l: LoggerView, now: LocalStamp) -> Result<AppendView, SetupError> {
    match l.platform.spec_line_terminator() {
        None => Err(SetupError::UnsupportedPlatform),
        Some(t) => match log_file_at(l, now) {
            None => Err(SetupError::InvalidFileNameTemplate),
            Some(f) => Ok(AppendView { file: f, text: t }),
        },
    }
}

/// What writing `line` at `now` appends: one record to the current log file.
pub open spec fn write_outcome(l: LoggerView, line: Seq<char>, now: LocalStamp) -> Option<AppendView> {
    match (l.platform.spec_line_terminator(), render_at(l.line_date_format, now), log_file_at(l, now)) {
        (Some(t), Some(ts), Some(f)) => Some(AppendView { file: f, text: record(ts, line, t) }),
        _ => None,
    }
}

/// What a cleanup pass does with a directory listing.
#[derive(Debug)]
pub enum CleanPlan {
    /// Nothing is to be done.
    Idle,
    /// Write this message to the log and touch nothing.
    Abort(String),
    /// One decision for each listed entry, in the listing's order.
    Entries(Vec<CleanAction>),
}

pub enum CleanPlanView {
    Idle,
    Abort(Seq<char>),
    Entries(Seq<CleanActionView>),
}

impl View for CleanPlan {
    type V = CleanPlanView;

    open spec fn view(&self) -> CleanPlanView {
        match self {
            CleanPlan::Idle => CleanPlanView::Idle,
            CleanPlan::Abort(m) => CleanPlanView::Abort(m@),
            CleanPlan::Entries(v) => CleanPlanView::Entries(v@.map_values(|a: CleanAction| a@)),
        }
    }
}

/// A directory listing, or the host's words on why it failed.
pub open spec fn listing_view(listing: &Result<Vec<DirEntryInfo>, String>) -> Result<Seq<DirEntryInfo>, Seq<char>> {
    match listing {
        Ok(v) => Ok(v@),
        Err(e) => Err(e@),
    }
}

/// The cleanup pass of a logger over a listing of its directory, at `now`
/// (seconds since the Unix epoch). On a platform without a path separator it
/// does nothing; a failed listing is reported even when cleanup is disabled;
/// without a retention window nothing more happens; a filter that the regex
/// crate refuses is reported; otherwise each entry is decided on its own.
pub open spec fn clean_plan(
    l: LoggerView,
    filter: Option<Seq<char>>,
    now: int,
    listing: Result<Seq<DirEntryInfo>, Seq<char>>,
) -> CleanPlanView {
    match l.platform.spec_path_separator() {
        None => CleanPlanView::Idle,
        Some(sep) => match listing {
            Err(d) => CleanPlanView::Abort(listing_message(d)),
            Ok(entries) => match l.days_keep {
                None => CleanPlanView::Idle,
                Some(days) => if filter is Some && regex_verdict(filter->0, Seq::<char>::empty()) is None {
                    CleanPlanView::Abort(filter_message(filter->0))
                } else {
                    CleanPlanView::Entries(
                        Seq::new(
                            entries.len(),
                            |i: int| entry_decision(l.path, sep, filter, now, days as int, entries[i]),
                        ),
                    )
                },
            },
        },
    }
}

/// A dated-file logger: its directory, its two date templates, its retention
/// window and the conventions of its platform. It holds no open file.
pub struct Logger {
    path: String,
    file_name_format: String,
    line_date_format: String,
    days_keep: Option<u64>,
    platform: Platform,
}

impl View for Logger {
    type V = LoggerView;

    closed spec fn view(&self) -> LoggerView {
        LoggerView {
            path: self.path@,
            file_name_format: self.file_name_format@,
            line_date_format: self.line_date_format@,
            days_keep: self.days_keep,
            platform: self.platform,
        }
    }
}

/// Joins a time stamp, a line and a terminator into one record.
pub fn compose_record(timestamp: &str, line: &str, terminator: &str) -> (r: String)
    ensures
        r@ == record(timestamp@, line@, terminator@),
{
    let mut s = String::from_str(timestamp);
    s.append(line);
    s.append(terminator);
    s
}

impl Logger {
    /// Sets up a logger and says what must be appended to probe the current
    /// log file: a single line terminator. The host creates the directory
    /// where it is absent before appending.
    pub fn new(
        path: String,
        file_name_format: String,
        line_date_format: String,
        days_keep: Option<u64>,
        platform: Platform,
        now: &LocalStamp,
    ) -> (r: Result<(Logger, Append), SetupError>)
        ensures
            r matches Ok((l, a)) ==> {
                &&& l@ == (LoggerView {
                    path: path@,
                    file_name_format: file_name_format@,
                    line_date_format: line_date_format@,
                    days_keep,
                    platform,
                })
                &&& setup_outcome(l@, *now) == Ok::<AppendView, SetupError>(a@)
            },
            r matches Err(e) ==> setup_outcome(
                LoggerView {
                    path: path@,
                    file_name_format: file_name_format@,
                    line_date_format: line_date_format@,
                    days_keep,
                    platform,
                },
                *now,
            ) == Err::<AppendView, SetupError>(e),
    {
        let terminator = match platform.line_terminator() {
            None => return Err(SetupError::UnsupportedPlatform),
            Some(t) => t,
        };
        let name = match render(file_name_format.as_str(), now) {
            None => return Err(SetupError::InvalidFileNameTemplate),
            Some(n) => n,
        };
        let mut file = path.clone();
        file.append(name.as_str());
        let logger = Logger { path, file_name_format, line_date_format, days_keep, platform };
        proof {
            assert(file@ == logger@.path + name@);
        }
        Ok((logger, Append { file, text: String::from_str(terminator) }))
    }

    /// The file that records written at `now` go to.
    pub fn log_file(&self, now: &LocalStamp) -> (r: Option<String>)
        ensures
            r matches Some(f) ==> log_file_at(self@, *now) == Some(f@),
            r is None ==> log_file_at(self@, *now) is None,
    {
        match render(self.file_name_format.as_str(), now) {
            None => None,
            Some(n) => {
                let mut file = self.path.clone();
                file.append(n.as_str());
                Some(file)
            },
        }
    }

    /// Says what writing `line` at `now` appends: the rendered time stamp,
    /// the line and the terminator, to the file named by the file-name
    /// template at that moment. `None` where the platform or a template
    /// leaves nothing to write.
    pub fn write_log(&self, line: &str, now: &LocalStamp) -> (r: Option<Append>)
        ensures
            r matches Some(a) ==> write_outcome(self@, line@, *now) == Some(a@),
            r is None ==> write_outcome(self@, line@, *now) is None,
    {
        let terminator = match self.platform.line_terminator() {
            None => return None,
            Some(t) => t,
        };
        let timestamp = match render(self.line_date_format.as_str(), now) {
            None => return None,
            Some(s) => s,
        };
        let file = match self.log_file(now) {
            None => return None,
            Some(f) => f,
        };
        let text = compose_record(timestamp.as_str(), line, terminator);
        Some(Append { file, text })
    }

    /// Decides a cleanup pass over `listing`, the entries of the logger's
    /// directory, at `now` in seconds since the Unix epoch.
    pub fn log_clean(
        &self,
        filter: Option<&str>,
        now: u64,
        listing: &Result<Vec<DirEntryInfo>, String>,
    ) -> (r: CleanPlan)
        ensures
            r@ == clean_plan(self@, active_filter(filter), now as int, listing_view(listing)),
    {
        let separator = match self.platform.path_separator() {
            None => return CleanPlan::Idle,
            Some(s) => s,
        };
        let entries = match listing {
            Err(d) => return CleanPlan::Abort(listing_failure_message(d.as_str())),
            Ok(v) => v,
        };
        let days = match self.days_keep {
            None => return CleanPlan::Idle,
            Some(d) => d,
        };
        let active: Option<&str> = match filter {
            Some(p) => if p.is_empty() { None } else { Some(p) },
            None => None,
        };
        proof {
            reveal_strlit("");
            assert(""@ =~= Seq::<char>::empty());
        }
        if let Some(p) = active {
            if let Err(_) = pattern_matches(p, "") {
                return CleanPlan::Abort(filter_failure_message(p));
            }
        }
        let ghost spec_filter = active_filter(filter);
        let mut actions: Vec<CleanAction> = Vec::new();
        let mut i: usize = 0;
        while i < entries.len()
            invariant
                i <= entries@.len(),
                actions@.len() == i,
                active_filter(active) == spec_filter,
                forall|j: int| 0 <= j < i ==> #[trigger] actions@[j]@ == entry_decision(
                    self@.path,
                    separator@,
                    spec_filter,
                    now as int,
                    days as int,
                    entries@[j],
                ),
            decreases entries@.len() - i,
        {
            let a = decide_entry(self.path.as_str(), separator, active, now, days, &entries[i]);
            actions.push(a);
            i = i + 1;
        }
        proof {
            let v = self@;
            assert(actions@.map_values(|a: CleanAction| a@) =~= Seq::new(
                entries@.len(),
                |k: int| entry_decision(v.path, separator@, spec_filter, now as int, days as int, entries@[k]),
            ));
        }
        CleanPlan::Entries(actions)
    }

    /// The directory of the log files.
    pub fn directory(&self) -> (r: &str)
        ensures
            r@ == self@.path,
    {
        self.path.as_str()
    }

    /// The retention window in days, if cleanup is enabled.
    pub fn days_keep(&self) -> (r: Option<u64>)
        ensures
            r == self@.days_keep,
    {
        self.days_keep
    }

    pub fn platform(&self) -> (r: Platform)
        ensures
            r == self@.platform,
    {
        self.platform
    }
}

} // verus!
