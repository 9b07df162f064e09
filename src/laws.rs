use vstd::prelude::*;

use crate::cleanup::{expired, regex_verdict, CleanActionView, DirEntryInfo, EntryKind, listing_message};
use crate::logger::{
    after_append, clean_plan, log_file_at, record, setup_outcome, write_outcome, AppendView,
    CleanPlanView, LoggerView,
};
use crate::stamp::{render_at, LocalStamp};

verus! {

/// A write that succeeds grows the current log file by exactly one record,
/// the rendered time stamp followed by the line and the terminator, and
/// leaves every other file as it was.
pub proof fn law_write_appends_one_record(
    l: LoggerView,
    line: Seq<char>,
    now: LocalStamp,
    files: Map<Seq<char>, Seq<char>>,
)
    requires
        write_outcome(l, line, now) is Some,
    ensures
        ({
            let a = write_outcome(l, line, now)->0;
            let before = if files.contains_key(a.file) { files[a.file] } else { Seq::<char>::empty() };
            let after = after_append(files, a);
            &&& Some(a.file) == log_file_at(l, now)
            &&& after[a.file] == before + record(
                render_at(l.line_date_format, now)->0,
                line,
                l.platform.spec_line_terminator()->0,
            )
            &&& forall|k: Seq<char>| k != a.file ==> (#[trigger] after.contains_key(k) <==> files.contains_key(k))
            &&& forall|k: Seq<char>| k != a.file && files.contains_key(k) ==> #[trigger] after[k] == files[k]
        }),
{
}

/// Setting up the same logger twice at the same moment succeeds both times
/// when it succeeds once, and leaves two line terminators at the end of the
/// current log file.
pub proof fn law_setup_twice(l: LoggerView, now: LocalStamp, files: Map<Seq<char>, Seq<char>>)
    requires
        setup_outcome(l, now) is Ok,
    ensures
        ({
            let a = setup_outcome(l, now)->Ok_0;
            let t = l.platform.spec_line_terminator()->0;
            let before = if files.contains_key(a.file) { files[a.file] } else { Seq::<char>::empty() };
            &&& Some(a.file) == log_file_at(l, now)
            &&& a.text == t
            &&& after_append(after_append(files, a), a)[a.file] == before + t + t
        }),
{
    let a = setup_outcome(l, now)->Ok_0;
    let before = if files.contains_key(a.file) { files[a.file] } else { Seq::<char>::empty() };
    let once = after_append(files, a);
    assert(once.contains_key(a.file));
    assert(once[a.file] == before + a.text);
    assert(after_append(once, a)[a.file] == (before + a.text) + a.text);
}

/// Without a retention window a cleanup pass removes nothing, whatever the
/// filter: at most it reports a directory that could not be listed.
pub proof fn law_clean_without_retention(
    l: LoggerView,
    filter: Option<Seq<char>>,
    now: int,
    listing: Result<Seq<DirEntryInfo>, Seq<char>>,
)
    requires
        l.days_keep is None,
    ensures
        clean_plan(l, filter, now, listing) is Idle || (listing is Err && clean_plan(l, filter, now, listing)
            == CleanPlanView::Abort(listing_message(listing->Err_0))),
{
}

/// With a retention window of `days` days, a listed file whose name passes
/// the filter (or with no filter) is removed when it was modified before
/// `now - days * 86400` and kept otherwise; a file whose name the filter
/// rejects is kept whatever its age.
pub proof fn law_clean_by_age_and_name(
    l: LoggerView,
    filter: Option<Seq<char>>,
    now: int,
    entries: Seq<DirEntryInfo>,
    i: int,
)
    requires
        l.days_keep is Some,
        l.platform.spec_path_separator() is Some,
        filter is Some ==> regex_verdict(filter->0, Seq::<char>::empty()) is Some,
        0 <= i < entries.len(),
        entries[i].name is Some,
        entries[i].kind matches EntryKind::File(Ok(_)),
    ensures
        ({
            let name = entries[i].name->0@;
            let modified = entries[i].kind->File_0->Ok_0 as int;
            let days = l.days_keep->0 as int;
            let passes = filter is None || regex_verdict(filter->0, name) == Some(true);
            let plan = clean_plan(l, filter, now, Ok(entries));
            &&& plan is Entries
            &&& passes && expired(modified, now, days) ==> plan->Entries_0[i] == (CleanActionView::Delete {
                path: l.path + l.platform.spec_path_separator()->0 + name,
                name,
            })
            &&& passes && !expired(modified, now, days) ==> plan->Entries_0[i] == CleanActionView::Keep
            &&& filter is Some && regex_verdict(filter->0, name) == Some(false) ==> plan->Entries_0[i]
                == CleanActionView::Keep
        }),
{
}

/// A cleanup pass never removes a directory, whatever its name or age.
pub proof fn law_directories_survive(
    l: LoggerView,
    filter: Option<Seq<char>>,
    now: int,
    entries: Seq<DirEntryInfo>,
    i: int,
)
    requires
        0 <= i < entries.len(),
        entries[i].kind is Directory,
    ensures
        clean_plan(l, filter, now, Ok(entries)) matches CleanPlanView::Entries(acts) ==> !(acts[i] is Delete),
{
}

} // verus!
