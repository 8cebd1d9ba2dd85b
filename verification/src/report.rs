//! The whole report: header, optional summary, notes and footer, and the
//! names of the folder and the file that it is written to.

use crate::clock::{LocalStart, LocalStartView};
use crate::model::{NoteView, Session, SessionView};
use crate::notes::{notes_text, outcome_views, render_notes, CopyOutcome};
use crate::summary::{build_summary_section, summary_section};
use crate::text::{same_text, signed_decimal, signed_decimal_text, trim, trimmed};
use vstd::prelude::*;
use vstd::string::*;

verus! {

/// The time zone as the report shows it: `GMT` where the calendar names it
/// `+00:00`, else the calendar's name.
pub open spec fn zone_label(zone: Seq<char>) -> Seq<char> {
    if zone == "+00:00"@ {
        "GMT"@
    } else {
        zone
    }
}

/// The start of the session as the header shows it: date, time of day and
/// time zone, parted by single spaces.
pub open spec fn started_text(start: LocalStartView) -> Seq<char> {
    start.date + " "@ + start.time + " "@ + zone_label(start.zone)
}

/// The name of the export folder of a session that started at `start`.
pub open spec fn export_dir_text(start: LocalStartView) -> Seq<char> {
    "RapidReporter-"@ + start.stamp
}

/// The name of the report file of a session that started at `start`.
pub open spec fn markdown_file_text(start: LocalStartView) -> Seq<char> {
    "RapidReporter-"@ + start.stamp + ".md"@
}

/// The header's line on the tester: none where no name is given or the name
/// is blank.
pub open spec fn tester_line(name: Option<Seq<char>>) -> Seq<char> {
    match name {
        Some(name) => if trimmed(name).len() > 0 {
            "- **Tester**: "@ + trimmed(name) + "\n"@
        } else {
            Seq::empty()
        },
        None => Seq::empty(),
    }
}

/// The header's line on the duration: none where no duration is given.
pub open spec fn duration_line(minutes: Option<i64>) -> Seq<char> {
    match minutes {
        Some(minutes) => "- **Duration**: "@ + signed_decimal(minutes as int) + " minutes\n"@,
        None => Seq::empty(),
    }
}

/// The report's header: title, tester, charter, start and duration, closed
/// by a blank line.
pub open spec fn header_text(session: SessionView, start: LocalStartView) -> Seq<char> {
    "# Rapid Reporter Session\n\n"@ + tester_line(session.tester_name) + "- **Charter**: "@
        + trimmed(session.charter) + "\n"@ + "- **Started**: "@ + started_text(start) + "\n"@
        + duration_line(session.duration_minutes) + "\n"@
}

/// What the summary adds to the report: the section, or nothing where there
/// is none.
pub open spec fn summary_text(notes: Seq<NoteView>) -> Seq<char> {
    match summary_section(notes) {
        Some(section) => section,
        None => Seq::empty(),
    }
}

/// The report's footer, which names the version of the application.
pub open spec fn footer_text(version: Seq<char>) -> Seq<char> {
    "---\n"@ + "Generated by Rapid Reporter v"@ + version + "\n"@
}

/// The report on `session`, which started at `start`; `outcomes[i]` says how
/// the copy of the screenshot of the session's note `i` ended.
pub open spec fn report_text(
    session: SessionView,
    start: LocalStartView,
    outcomes: Seq<Result<Seq<char>, Seq<char>>>,
    version: Seq<char>,
) -> Seq<char> {
    header_text(session, start) + summary_text(session.notes) + "## Notes\n\n"@ + notes_text(
        session.notes,
        outcomes,
    ) + footer_text(version)
}

/// Writes the start of the session as the header shows it, such as
/// `14 November 2023 22:13 GMT`.
pub fn started_line(start: &LocalStart) -> (r: String)
    ensures
        r@ == started_text(start@),
{
    let mut r: String = start.date.clone();
    r.append(" ");
    r.append(start.time.as_str());
    r.append(" ");
    if same_text(start.zone.as_str(), "+00:00") {
        r.append("GMT");
    } else {
        r.append(start.zone.as_str());
    }
    r
}

/// The name of the export folder, such as `RapidReporter-2023-11-14-2213`.
/// Two sessions that started in the same minute share it.
pub fn export_dir_name(start: &LocalStart) -> (r: String)
    ensures
        r@ == export_dir_text(start@),
{
    let mut r: String = "RapidReporter-".to_string();
    r.append(start.stamp.as_str());
    r
}

/// The name of the report file, such as `RapidReporter-2023-11-14-2213.md`.
pub fn markdown_file_name(start: &LocalStart) -> (r: String)
    ensures
        r@ == markdown_file_text(start@),
{
    let mut r: String = "RapidReporter-".to_string();
    r.append(start.stamp.as_str());
    r.append(".md");
    r
}

/// Writes the report's header.
fn render_header(session: &Session, start: &LocalStart) -> (r: String)
    ensures
        r@ == header_text(session@, start@),
{
    let mut md: String = "# Rapid Reporter Session\n\n".to_string();
    let ghost title = md@;
    match &session.tester_name {
        Some(name) => {
            let shown: &str = trim(name.as_str());
            if !shown.is_empty() {
                md.append("- **Tester**: ");
                md.append(shown);
                md.append("\n");
            }
        },
        None => {},
    }
    assert(md@ =~= title + tester_line(session@.tester_name));
    md.append("- **Charter**: ");
    md.append(trim(session.charter.as_str()));
    md.append("\n");
    md.append("- **Started**: ");
    md.append(started_line(start).as_str());
    md.append("\n");
    let ghost upto_started = md@;
    match session.duration_minutes {
        Some(minutes) => {
            md.append("- **Duration**: ");
            md.append(signed_decimal_text(minutes).as_str());
            md.append(" minutes\n");
        },
        None => {},
    }
    assert(md@ =~= upto_started + duration_line(session@.duration_minutes));
    md.append("\n");
    assert(md@ =~= header_text(session@, start@));
    md
}

/// Renders the Markdown report on `session`. `start` is the session's start
/// in local time, `version` the version of the application, and
/// `outcomes[i]` says how the copy of the screenshot of `session.notes[i]`
/// ended; for a note that stands for no screenshot it is not read. A failed
/// copy shows in the report and does not stop it.
pub fn render_report(
    session: &Session,
    start: &LocalStart,
    outcomes: &[CopyOutcome],
    version: &str,
) -> (r: String)
    requires
        session.notes.len() <= outcomes.len(),
    ensures
        r@ == report_text(session@, start@, outcome_views(outcomes@), version@),
{
    let mut md: String = render_header(session, start);
    let ghost header = md@;
    match build_summary_section(session.notes.as_slice()) {
        Some(section) => {
            md.append(section.as_str());
        },
        None => {},
    }
    assert(md@ =~= header + summary_text(session@.notes));
    md.append("## Notes\n\n");
    md.append(render_notes(session.notes.as_slice(), outcomes).as_str());
    md.append("---\n");
    md.append("Generated by Rapid Reporter v");
    md.append(version);
    md.append("\n");
    assert(md@ =~= report_text(session@, start@, outcome_views(outcomes@), version@));
    md
}

} // verus!
