//! The optional `## Summary` section: how many notes each icon category has.

use crate::model::{category, note_views, IconKind, Note, NoteView};
use crate::text::{decimal, decimal_text, to_lowercase};
use vstd::prelude::*;
use vstd::string::*;

verus! {

/// How many of `notes` belong to the category `kind`.
pub open spec fn count_of(notes: Seq<NoteView>, kind: IconKind) -> nat {
    notes.filter(|n: NoteView| category(n) == Some(kind)).len()
}

/// Counting one note more adds one exactly when it is of the category.
proof fn lemma_count_step(notes: Seq<NoteView>, kind: IconKind, i: int)
    requires
        0 <= i < notes.len(),
    ensures
        count_of(notes.take(i + 1), kind) == count_of(notes.take(i), kind) + if category(notes[i])
            == Some(kind) {
            1nat
        } else {
            0nat
        },
        count_of(notes.take(i), kind) <= i,
{
    reveal(Seq::filter);
    assert(notes.take(i + 1).drop_last() =~= notes.take(i));
    notes.take(i).lemma_filter_len(|n: NoteView| category(n) == Some(kind));
}

/// Counts the notes of each icon category, in the order bug, idea,
/// observation, question, warning. A note of any other type is not counted.
pub fn summary_counts(notes: &[Note]) -> (r: (usize, usize, usize, usize, usize))
    ensures
        r.0 == count_of(note_views(notes@), IconKind::Bug),
        r.1 == count_of(note_views(notes@), IconKind::Idea),
        r.2 == count_of(note_views(notes@), IconKind::Observation),
        r.3 == count_of(note_views(notes@), IconKind::Question),
        r.4 == count_of(note_views(notes@), IconKind::Warning),
{
    let ghost views = note_views(notes@);
    let mut bug_count: usize = 0;
    let mut idea_count: usize = 0;
    let mut observation_count: usize = 0;
    let mut question_count: usize = 0;
    let mut warning_count: usize = 0;
    let mut i: usize = 0;
    proof {
        reveal(Seq::filter);
        assert(views.take(0) =~= Seq::<NoteView>::empty());
    }
    while i < notes.len()
        invariant
            i <= notes.len(),
            views == note_views(notes@),
            bug_count == count_of(views.take(i as int), IconKind::Bug),
            idea_count == count_of(views.take(i as int), IconKind::Idea),
            observation_count == count_of(views.take(i as int), IconKind::Observation),
            question_count == count_of(views.take(i as int), IconKind::Question),
            warning_count == count_of(views.take(i as int), IconKind::Warning),
        decreases notes.len() - i,
    {
        proof {
            lemma_count_step(views, IconKind::Bug, i as int);
            lemma_count_step(views, IconKind::Idea, i as int);
            lemma_count_step(views, IconKind::Observation, i as int);
            lemma_count_step(views, IconKind::Question, i as int);
            lemma_count_step(views, IconKind::Warning, i as int);
            assert(views[i as int] == notes@[i as int]@);
        }
        let label: String = to_lowercase(notes[i].note_type.as_str());
        match IconKind::from_label(label.as_str()) {
            Some(IconKind::Bug) => {
                bug_count = bug_count + 1;
            },
            Some(IconKind::Idea) => {
                idea_count = idea_count + 1;
            },
            Some(IconKind::Observation) => {
                observation_count = observation_count + 1;
            },
            Some(IconKind::Question) => {
                question_count = question_count + 1;
            },
            Some(IconKind::Warning) => {
                warning_count = warning_count + 1;
            },
            None => {},
        }
        i = i + 1;
    }
    proof {
        assert(views.take(notes.len() as int) =~= views);
    }
    (bug_count, idea_count, observation_count, question_count, warning_count)
}

/// A count with its word: the singular for exactly one, else the plural.
pub open spec fn count_label(count: nat, singular: Seq<char>, plural: Seq<char>) -> Seq<char> {
    decimal(count) + " "@ + if count == 1 {
        singular
    } else {
        plural
    }
}

/// Writes a count with its word, such as `1 Bug` or `2 Bugs`.
pub fn plural(count: usize, one: &str, many: &str) -> (r: String)
    ensures
        r@ == count_label(count as nat, one@, many@),
{
    let mut r: String = decimal_text(count as u128);
    r.append(" ");
    if count == 1 {
        r.append(one);
    } else {
        r.append(many);
    }
    r
}

/// The summary's line for one category: nothing where the category has no
/// note, else its icon, its count with the fitting word, and a blank line.
pub open spec fn summary_line(kind: IconKind, count: nat) -> Seq<char> {
    if count == 0 {
        Seq::empty()
    } else {
        kind.tag() + count_label(count, kind.singular(), kind.plural()) + "\n\n"@
    }
}

/// Whether any of `notes` belongs to an icon category.
pub open spec fn has_icon_notes(notes: Seq<NoteView>) -> bool {
    ||| count_of(notes, IconKind::Bug) > 0
    ||| count_of(notes, IconKind::Idea) > 0
    ||| count_of(notes, IconKind::Observation) > 0
    ||| count_of(notes, IconKind::Question) > 0
    ||| count_of(notes, IconKind::Warning) > 0
}

/// The summary section of a report on `notes`: none where no note belongs to
/// an icon category, else the heading and one line for each category that
/// has notes, in the order bug, idea, observation, question, warning.
pub open spec fn summary_section(notes: Seq<NoteView>) -> Option<Seq<char>> {
    if has_icon_notes(notes) {
        Some(
            "## Summary\n\n"@ + summary_line(IconKind::Bug, count_of(notes, IconKind::Bug))
                + summary_line(IconKind::Idea, count_of(notes, IconKind::Idea)) + summary_line(
                IconKind::Observation,
                count_of(notes, IconKind::Observation),
            ) + summary_line(IconKind::Question, count_of(notes, IconKind::Question))
                + summary_line(IconKind::Warning, count_of(notes, IconKind::Warning)),
        )
    } else {
        None
    }
}

/// Appends the summary's line for `kind` to `md`.
fn push_summary_line(md: &mut String, kind: IconKind, count: usize)
    ensures
        final(md)@ == old(md)@ + summary_line(kind, count as nat),
{
    if count > 0 {
        let ghost before = md@;
        let label: String = plural(count, kind.singular_label(), kind.plural_label());
        md.append(kind.image_tag().as_str());
        md.append(label.as_str());
        md.append("\n\n");
        assert(md@ =~= before + summary_line(kind, count as nat));
    } else {
        assert(md@ + summary_line(kind, count as nat) =~= md@);
    }
}

/// Builds the `## Summary` section for `notes`, or `None` where no note
/// belongs to an icon category.
pub fn build_summary_section(notes: &[Note]) -> (r: Option<String>)
    ensures
        match r {
            Some(md) => summary_section(note_views(notes@)) == Some(md@),
            None => summary_section(note_views(notes@)) is None,
        },
{
    let (bug_count, idea_count, observation_count, question_count, warning_count) = summary_counts(
        notes,
    );
    let has_summary: bool = bug_count > 0 || idea_count > 0 || observation_count > 0
        || question_count > 0 || warning_count > 0;
    if !has_summary {
        return None;
    }
    let mut md: String = "## Summary\n\n".to_string();
    push_summary_line(&mut md, IconKind::Bug, bug_count);
    push_summary_line(&mut md, IconKind::Idea, idea_count);
    push_summary_line(&mut md, IconKind::Observation, observation_count);
    push_summary_line(&mut md, IconKind::Question, question_count);
    push_summary_line(&mut md, IconKind::Warning, warning_count);
    Some(md)
}

} // verus!
