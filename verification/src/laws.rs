//! What holds of every report, proved from the definitions of its parts.

use crate::assets::screenshot_rel_text;
use crate::clock::LocalStartView;
use crate::model::{category, IconKind, NoteView, SessionView};
use crate::notes::{
    code_block, failed_copy_block, image_block, note_text, notes_text, screenshot_path,
};
use crate::report::{footer_text, header_text, report_text, summary_text};
use crate::summary::{count_label, count_of, has_icon_notes, summary_line, summary_section};
use crate::text::{decimal, lowercase, trimmed, without_prefix};
use vstd::prelude::*;

verus! {

/// A category is counted zero times exactly when no note belongs to it.
proof fn lemma_count_zero(notes: Seq<NoteView>, kind: IconKind)
    ensures
        count_of(notes, kind) == 0 <==> forall|i: int|
            0 <= i < notes.len() ==> category(#[trigger] notes[i]) != Some(kind),
{
    let pred = |n: NoteView| category(n) == Some(kind);
    let kept = notes.filter(pred);
    if kept.len() > 0 {
        notes.lemma_filter_pred(pred, 0);
        notes.lemma_filter_contains_rev(pred, kept[0]);
        let i = choose|i: int| 0 <= i < notes.len() && notes[i] == kept[0];
        assert(category(notes[i]) == Some(kind));
    } else {
        assert forall|i: int| 0 <= i < notes.len() implies category(#[trigger] notes[i]) != Some(
            kind,
        ) by {
            if category(notes[i]) == Some(kind) {
                notes.lemma_filter_contains(pred, i);
                assert(kept.contains(notes[i]));
            }
        }
    }
}

/// A report has a summary exactly when one of its notes belongs to an icon
/// category.
pub proof fn lemma_summary_iff_icon_notes(notes: Seq<NoteView>)
    ensures
        summary_section(notes) is Some <==> exists|i: int|
            0 <= i < notes.len() && category(#[trigger] notes[i]) is Some,
{
    lemma_count_zero(notes, IconKind::Bug);
    lemma_count_zero(notes, IconKind::Idea);
    lemma_count_zero(notes, IconKind::Observation);
    lemma_count_zero(notes, IconKind::Question);
    lemma_count_zero(notes, IconKind::Warning);
    if has_icon_notes(notes) {
        let kind = if count_of(notes, IconKind::Bug) > 0 {
            IconKind::Bug
        } else if count_of(notes, IconKind::Idea) > 0 {
            IconKind::Idea
        } else if count_of(notes, IconKind::Observation) > 0 {
            IconKind::Observation
        } else if count_of(notes, IconKind::Question) > 0 {
            IconKind::Question
        } else {
            IconKind::Warning
        };
        assert(count_of(notes, kind) > 0);
        let i = choose|i: int| 0 <= i < notes.len() && category(#[trigger] notes[i]) == Some(kind);
        assert(category(notes[i]) is Some);
    } else {
        assert forall|i: int| 0 <= i < notes.len() implies !(category(
            #[trigger] notes[i],
        ) is Some) by {
            match category(notes[i]) {
                Some(kind) => {
                    assert(count_of(notes, kind) == 0);
                },
                None => {},
            }
        }
    }
}

/// The report on a session without a note of an icon category has no
/// summary: its notes follow its header directly.
pub proof fn lemma_no_icon_notes_no_summary(
    session: SessionView,
    start: LocalStartView,
    outcomes: Seq<Result<Seq<char>, Seq<char>>>,
    version: Seq<char>,
)
    requires
        forall|i: int|
            0 <= i < session.notes.len() ==> category(#[trigger] session.notes[i]) is None,
    ensures
        summary_section(session.notes) is None,
        report_text(session, start, outcomes, version) == header_text(session, start)
            + "## Notes\n\n"@ + notes_text(session.notes, outcomes) + footer_text(version),
{
    lemma_summary_iff_icon_notes(session.notes);
    assert(summary_text(session.notes) =~= Seq::<char>::empty());
    assert(header_text(session, start) + summary_text(session.notes) =~= header_text(
        session,
        start,
    ));
}

/// The summary of a session with a note of an icon category is the heading
/// and the lines of the categories in the order bug, idea, observation,
/// question, warning. A category without a note has no line; the line of a
/// category with one note uses the singular, and with more the plural.
pub proof fn lemma_summary_lists_present_categories(notes: Seq<NoteView>, i: int)
    requires
        0 <= i < notes.len(),
        category(notes[i]) is Some,
    ensures
        summary_section(notes) == Some(
            "## Summary\n\n"@ + summary_line(IconKind::Bug, count_of(notes, IconKind::Bug))
                + summary_line(IconKind::Idea, count_of(notes, IconKind::Idea)) + summary_line(
                IconKind::Observation,
                count_of(notes, IconKind::Observation),
            ) + summary_line(IconKind::Question, count_of(notes, IconKind::Question))
                + summary_line(IconKind::Warning, count_of(notes, IconKind::Warning)),
        ),
        forall|kind: IconKind| #[trigger]
            summary_line(kind, 0) == Seq::<char>::empty(),
        forall|kind: IconKind| #[trigger]
            summary_line(kind, 1) == kind.tag() + decimal(1) + " "@ + kind.singular() + "\n\n"@,
        forall|kind: IconKind, count: nat|
            count > 1 ==> #[trigger] summary_line(kind, count) == kind.tag() + decimal(count)
                + " "@ + kind.plural() + "\n\n"@,
{
    lemma_summary_iff_icon_notes(notes);
    assert forall|kind: IconKind| #[trigger]
        summary_line(kind, 1) == kind.tag() + decimal(1) + " "@ + kind.singular() + "\n\n"@ by {
        assert(kind.tag() + count_label(1, kind.singular(), kind.plural()) + "\n\n"@ =~= kind.tag()
            + decimal(1) + " "@ + kind.singular() + "\n\n"@);
    }
    assert forall|kind: IconKind, count: nat| count > 1 implies #[trigger] summary_line(
        kind,
        count,
    ) == kind.tag() + decimal(count) + " "@ + kind.plural() + "\n\n"@ by {
        assert(kind.tag() + count_label(count, kind.singular(), kind.plural()) + "\n\n"@
            =~= kind.tag() + decimal(count) + " "@ + kind.plural() + "\n\n"@);
    }
}

/// The notes section reads, of the outcomes, only those of its own notes.
proof fn lemma_notes_text_reads_own_outcomes(
    notes: Seq<NoteView>,
    a: Seq<Result<Seq<char>, Seq<char>>>,
    b: Seq<Result<Seq<char>, Seq<char>>>,
)
    requires
        forall|i: int| 0 <= i < notes.len() ==> a[i] == b[i],
    ensures
        notes_text(notes, a) == notes_text(notes, b),
    decreases notes.len(),
{
    if notes.len() > 0 {
        lemma_notes_text_reads_own_outcomes(notes.drop_last(), a, b);
    }
}

/// Notes are written oldest first, which is the reverse of the order in
/// which they are given: whatever comes later in the input stands earlier in
/// the report.
pub proof fn lemma_notes_oldest_first(
    notes: Seq<NoteView>,
    outcomes: Seq<Result<Seq<char>, Seq<char>>>,
    k: int,
)
    requires
        0 <= k <= notes.len() <= outcomes.len(),
    ensures
        notes_text(notes, outcomes) == notes_text(notes.skip(k), outcomes.skip(k)) + notes_text(
            notes.take(k),
            outcomes.take(k),
        ),
    decreases notes.len(),
{
    if k == notes.len() {
        assert(notes.take(k) =~= notes);
        assert(notes.skip(k) =~= Seq::<NoteView>::empty());
        lemma_notes_text_reads_own_outcomes(notes, outcomes, outcomes.take(k));
        assert(notes_text(notes.skip(k), outcomes.skip(k)) + notes_text(notes, outcomes)
            =~= notes_text(notes, outcomes));
    } else {
        let rest = notes.drop_last();
        let tail = notes.skip(k);
        lemma_notes_oldest_first(rest, outcomes, k);
        assert(rest.take(k) =~= notes.take(k));
        assert(tail.drop_last() =~= rest.skip(k));
        assert(tail.last() == notes.last());
        assert(outcomes.skip(k)[tail.len() - 1] == outcomes[notes.len() - 1]);
        assert(notes_text(notes, outcomes) =~= notes_text(tail, outcomes.skip(k)) + notes_text(
            notes.take(k),
            outcomes.take(k),
        ));
    }
}

/// A single note's section is its block.
pub proof fn lemma_single_note(note: NoteView, outcome: Result<Seq<char>, Seq<char>>)
    ensures
        notes_text(seq![note], seq![outcome]) == note_text(note, outcome),
{
    assert(seq![note].drop_last() =~= Seq::<NoteView>::empty());
    assert(notes_text(seq![note].drop_last(), seq![outcome]) =~= Seq::<char>::empty());
    assert(note_text(note, outcome) + Seq::<char>::empty() =~= note_text(note, outcome));
}

/// Every note has its block in the report, whatever became of the others:
/// the blocks of the notes given after it stand before its block and those
/// of the notes given before it stand behind.
pub proof fn lemma_every_note_is_rendered(
    notes: Seq<NoteView>,
    outcomes: Seq<Result<Seq<char>, Seq<char>>>,
    i: int,
)
    requires
        0 <= i < notes.len() <= outcomes.len(),
    ensures
        notes_text(notes, outcomes) == notes_text(notes.skip(i + 1), outcomes.skip(i + 1))
            + note_text(notes[i], outcomes[i]) + notes_text(notes.take(i), outcomes.take(i)),
{
    lemma_notes_oldest_first(notes, outcomes, i + 1);
    let head = notes.take(i + 1);
    let head_outcomes = outcomes.take(i + 1);
    assert(head.last() == notes[i]);
    assert(head_outcomes[head.len() - 1] == outcomes[i]);
    assert(head.drop_last() =~= notes.take(i));
    lemma_notes_text_reads_own_outcomes(notes.take(i), head_outcomes, outcomes.take(i));
    assert(notes_text(notes, outcomes) =~= notes_text(notes.skip(i + 1), outcomes.skip(i + 1))
        + note_text(notes[i], outcomes[i]) + notes_text(notes.take(i), outcomes.take(i)));
}

/// A screenshot whose copy failed does not take the other notes with it:
/// the report shows the failure in the note's place and every other block
/// as it would have been.
pub proof fn lemma_failed_copy_spares_other_notes(
    notes: Seq<NoteView>,
    outcomes: Seq<Result<Seq<char>, Seq<char>>>,
    i: int,
    reason: Seq<char>,
)
    requires
        0 <= i < notes.len() <= outcomes.len(),
        screenshot_path(notes[i]) is Some,
    ensures
        notes_text(notes, outcomes.update(i, Err(reason))) == notes_text(
            notes.skip(i + 1),
            outcomes.skip(i + 1),
        ) + failed_copy_block(screenshot_path(notes[i])->0, reason) + notes_text(
            notes.take(i),
            outcomes.take(i),
        ),
{
    let failed = outcomes.update(i, Err(reason));
    lemma_every_note_is_rendered(notes, failed, i);
    assert(failed.skip(i + 1) =~= outcomes.skip(i + 1));
    assert(failed.take(i) =~= outcomes.take(i));
}

/// A note of type `screenshot`, in any mix of upper and lower case, whose
/// file was copied shows as an image that points at the copy; a copy named
/// `file_name` lies under `assets/screenshots`.
pub proof fn lemma_copied_screenshot_is_image(note: NoteView, file_name: Seq<char>)
    requires
        lowercase(note.note_type) == "screenshot"@,
    ensures
        screenshot_path(note) == Some(trimmed(note.text)),
        note_text(note, Ok(screenshot_rel_text(file_name))) == image_block(
            "assets/screenshots"@ + "/"@ + file_name,
        ),
        image_block("assets/screenshots"@ + "/"@ + file_name) == "<img src=\""@
            + "assets/screenshots"@ + "/"@ + file_name
            + "\" width=\"900\" alt=\"Screenshot\">\n\n"@,
{
    assert("<img src=\""@ + ("assets/screenshots"@ + "/"@ + file_name)
        + "\" width=\"900\" alt=\"Screenshot\">\n\n"@ =~= "<img src=\""@ + "assets/screenshots"@
        + "/"@ + file_name + "\" width=\"900\" alt=\"Screenshot\">\n\n"@);
}

/// A note whose text starts with `Screenshot:` is a screenshot note whatever
/// its type: it is rendered as a note of type `screenshot` is whose text is
/// what follows the prefix.
pub proof fn lemma_prefixed_text_is_screenshot(
    note: NoteView,
    explicit: NoteView,
    outcome: Result<Seq<char>, Seq<char>>,
)
    requires
        without_prefix(trimmed(note.text), "Screenshot:"@) matches Some(rest) && trimmed(rest)
            == trimmed(explicit.text),
        lowercase(note.note_type) != "screenshot"@,
        lowercase(explicit.note_type) == "screenshot"@,
    ensures
        screenshot_path(note) == screenshot_path(explicit),
        note_text(note, outcome) == note_text(explicit, outcome),
{
}

/// A note of type `snippet` is rendered as its text inside a code fence,
/// with no icon, unless its text names a screenshot.
pub proof fn lemma_snippet_is_fenced(note: NoteView, outcome: Result<Seq<char>, Seq<char>>)
    requires
        lowercase(note.note_type) == "snippet"@,
        without_prefix(trimmed(note.text), "Screenshot:"@) is None,
    ensures
        note_text(note, outcome) == code_block(trimmed(note.text)),
        code_block(trimmed(note.text)) == "```\n"@ + trimmed(note.text) + "\n```\n\n"@,
{
    reveal_strlit("snippet");
    reveal_strlit("screenshot");
    assert("snippet"@.len() != "screenshot"@.len());
}

/// Upper and lower case in a note's type make no difference: two notes
/// whose types differ in case alone belong to the same category, name the
/// same screenshot and are rendered alike.
pub proof fn lemma_type_case_is_ignored(
    a: NoteView,
    b: NoteView,
    outcome: Result<Seq<char>, Seq<char>>,
)
    requires
        lowercase(a.note_type) == lowercase(b.note_type),
        a.text == b.text,
    ensures
        category(a) == category(b),
        screenshot_path(a) == screenshot_path(b),
        note_text(a, outcome) == note_text(b, outcome),
{
}

/// Upper and lower case in the notes' types make no difference to the
/// summary: two runs of notes whose types differ in case alone have the
/// same counts and the same summary section.
pub proof fn lemma_summary_ignores_type_case(a: Seq<NoteView>, b: Seq<NoteView>)
    requires
        a.len() == b.len(),
        forall|i: int|
            0 <= i < a.len() ==> lowercase(#[trigger] a[i].note_type) == lowercase(b[i].note_type),
    ensures
        forall|kind: IconKind| #[trigger] count_of(a, kind) == count_of(b, kind),
        summary_section(a) == summary_section(b),
{
    assert forall|kind: IconKind| #[trigger] count_of(a, kind) == count_of(b, kind) by {
        lemma_counts_agree(a, b, kind);
    }
}

/// Two runs of notes that agree on every note's category have the same
/// count of each category.
proof fn lemma_counts_agree(a: Seq<NoteView>, b: Seq<NoteView>, kind: IconKind)
    requires
        a.len() == b.len(),
        forall|i: int| 0 <= i < a.len() ==> category(#[trigger] a[i]) == category(b[i]),
    ensures
        count_of(a, kind) == count_of(b, kind),
    decreases a.len(),
{
    reveal(Seq::filter);
    if a.len() > 0 {
        assert(category(a.last()) == category(b.last()));
        lemma_counts_agree(a.drop_last(), b.drop_last(), kind);
    }
}

} // verus!
