//! The `## Notes` section: one block per note, oldest note first.

use crate::model::{note_views, IconKind, Note, NoteView};
use crate::text::{
    lowercase, same_text, soften_dashes, soften_dashes_text, strip_prefix, to_lowercase, trim,
    trimmed, without_prefix,
};
use vstd::prelude::*;
use vstd::string::*;

verus! {

/// How the copy of one screenshot into the export folder ended: the path of
/// the copy relative to the report, or the reason why there is none.
pub type CopyOutcome = Result<String, String>;

/// A copy outcome as plain text.
pub open spec fn outcome_view(outcome: CopyOutcome) -> Result<Seq<char>, Seq<char>> {
    match outcome {
        Ok(path) => Ok(path@),
        Err(reason) => Err(reason@),
    }
}

/// The views of a run of copy outcomes, in the same order.
pub open spec fn outcome_views(outcomes: Seq<CopyOutcome>) -> Seq<Result<Seq<char>, Seq<char>>> {
    outcomes.map_values(|o: CopyOutcome| outcome_view(o))
}

/// The path of the screenshot that a note with the lower-case type `label`
/// and the text `text` stands for, if it stands for one. A note of type
/// `screenshot` holds the path as its text; any other note whose text starts
/// with `Screenshot:` holds it behind that prefix.
pub open spec fn source_path(label: Seq<char>, text: Seq<char>) -> Option<Seq<char>> {
    let shown = trimmed(text);
    if label == "screenshot"@ {
        Some(shown)
    } else {
        match without_prefix(shown, "Screenshot:"@) {
            Some(rest) => Some(trimmed(rest)),
            None => None,
        }
    }
}

/// The path of the screenshot that a note stands for, if it stands for one.
/// The note's type is read in lower case.
pub open spec fn screenshot_path(note: NoteView) -> Option<Seq<char>> {
    source_path(lowercase(note.note_type), note.text)
}

/// The block for a screenshot that was copied to `rel_path`.
pub open spec fn image_block(rel_path: Seq<char>) -> Seq<char> {
    "<img src=\""@ + rel_path + "\" width=\"900\" alt=\"Screenshot\">\n\n"@
}

/// The block for a screenshot at `path` whose copy failed for `reason`: a
/// readable line, and the reason as a comment.
pub open spec fn failed_copy_block(path: Seq<char>, reason: Seq<char>) -> Seq<char> {
    "Screenshot (copy failed): "@ + path + "\n\n"@ + "<!-- "@ + soften_dashes(reason)
        + " -->\n\n"@
}

/// The block for a snippet: its text inside a code fence.
pub open spec fn code_block(text: Seq<char>) -> Seq<char> {
    "```\n"@ + text + "\n```\n\n"@
}

/// The block for a note of an icon category: the icon, then the text.
pub open spec fn icon_block(kind: IconKind, text: Seq<char>) -> Seq<char> {
    kind.tag() + text + "\n\n"@
}

/// The block for any other note: its text as a paragraph.
pub open spec fn paragraph(text: Seq<char>) -> Seq<char> {
    text + "\n\n"@
}

/// The block of a note with the lower-case type `label` and the text
/// `text`. A note that stands for a screenshot shows the copy or the failed
/// copy; a snippet is fenced; a note of an icon category has its icon; any
/// other note is a paragraph. `outcome` is read only where the note stands
/// for a screenshot.
pub open spec fn block_text(
    label: Seq<char>,
    text: Seq<char>,
    outcome: Result<Seq<char>, Seq<char>>,
) -> Seq<char> {
    match source_path(label, text) {
        Some(path) => match outcome {
            Ok(rel_path) => image_block(rel_path),
            Err(reason) => failed_copy_block(path, reason),
        },
        None => {
            if label == "snippet"@ {
                code_block(trimmed(text))
            } else {
                match IconKind::of_label(label) {
                    Some(kind) => icon_block(kind, trimmed(text)),
                    None => paragraph(trimmed(text)),
                }
            }
        },
    }
}

/// The block that a note contributes to the report. The note's type is read
/// in lower case.
pub open spec fn note_text(note: NoteView, outcome: Result<Seq<char>, Seq<char>>) -> Seq<char> {
    block_text(lowercase(note.note_type), note.text, outcome)
}

/// The blocks of `notes`, the last note first. `outcomes[i]` belongs to
/// `notes[i]`.
pub open spec fn notes_text(
    notes: Seq<NoteView>,
    outcomes: Seq<Result<Seq<char>, Seq<char>>>,
) -> Seq<char>
    decreases notes.len(),
{
    if notes.len() == 0 {
        Seq::empty()
    } else {
        note_text(notes.last(), outcomes[notes.len() - 1]) + notes_text(
            notes.drop_last(),
            outcomes,
        )
    }
}

/// The path of the screenshot that a note with the lower-case type `label`
/// and the text `text` stands for, or `None` where it stands for none.
pub fn source_for(label: &str, text: &str) -> (r: Option<String>)
    ensures
        match r {
            Some(path) => source_path(label@, text@) == Some(path@),
            None => source_path(label@, text@) is None,
        },
{
    let shown: &str = trim(text);
    if same_text(label, "screenshot") {
        Some(shown.to_string())
    } else {
        match strip_prefix(shown, "Screenshot:") {
            Some(rest) => Some(trim(rest).to_string()),
            None => None,
        }
    }
}

/// The path of the screenshot that `note` stands for, or `None` where it
/// stands for none. This is the file to copy into the export folder.
pub fn screenshot_source(note: &Note) -> (r: Option<String>)
    ensures
        match r {
            Some(path) => screenshot_path(note@) == Some(path@),
            None => screenshot_path(note@) is None,
        },
{
    let label: String = to_lowercase(note.note_type.as_str());
    source_for(label.as_str(), note.text.as_str())
}

/// Renders the block of a note with the lower-case type `label` and the
/// text `text`. `outcome` says how the copy of the note's screenshot ended;
/// it is not read where the note stands for none.
pub fn render_block(label: &str, text: &str, outcome: &CopyOutcome) -> (r: String)
    ensures
        r@ == block_text(label@, text@, outcome_view(*outcome)),
{
    let shown: &str = trim(text);
    let mut md: String = String::new();
    match source_for(label, text) {
        Some(path) => {
            match outcome {
                Ok(rel_path) => {
                    md.append("<img src=\"");
                    md.append(rel_path.as_str());
                    md.append("\" width=\"900\" alt=\"Screenshot\">\n\n");
                    assert(md@ =~= image_block(rel_path@));
                },
                Err(reason) => {
                    md.append("Screenshot (copy failed): ");
                    md.append(path.as_str());
                    md.append("\n\n");
                    md.append("<!-- ");
                    md.append(soften_dashes_text(reason.as_str()).as_str());
                    md.append(" -->\n\n");
                    assert(md@ =~= failed_copy_block(path@, reason@));
                },
            }
        },
        None => {
            if same_text(label, "snippet") {
                md.append("```\n");
                md.append(shown);
                md.append("\n```\n\n");
                assert(md@ =~= code_block(shown@));
            } else {
                match IconKind::from_label(label) {
                    Some(kind) => {
                        md.append(kind.image_tag().as_str());
                        md.append(shown);
                        md.append("\n\n");
                        assert(md@ =~= icon_block(kind, shown@));
                    },
                    None => {
                        md.append(shown);
                        md.append("\n\n");
                        assert(md@ =~= paragraph(shown@));
                    },
                }
            }
        },
    }
    md
}

/// Renders the block of one note. `outcome` says how the copy of the note's
/// screenshot ended; it is not read where the note stands for none.
pub fn render_note(note: &Note, outcome: &CopyOutcome) -> (r: String)
    ensures
        r@ == note_text(note@, outcome_view(*outcome)),
{
    let label: String = to_lowercase(note.note_type.as_str());
    render_block(label.as_str(), note.text.as_str(), outcome)
}

/// Renders the blocks of `notes`, oldest first: the notes arrive newest
/// first, so the last one is written first. `outcomes[i]` says how the copy
/// of the screenshot of `notes[i]` ended, so there is one for every note; an
/// outcome beyond the last note is not read.
pub fn render_notes(notes: &[Note], outcomes: &[CopyOutcome]) -> (r: String)
    requires
        notes.len() <= outcomes.len(),
    ensures
        r@ == notes_text(note_views(notes@), outcome_views(outcomes@)),
{
    let ghost views = note_views(notes@);
    let ghost outs = outcome_views(outcomes@);
    let mut md: String = String::new();
    let mut i: usize = notes.len();
    proof {
        assert(views.take(i as int) =~= views);
    }
    while i > 0
        invariant
            i <= notes.len() <= outcomes.len(),
            views == note_views(notes@),
            outs == outcome_views(outcomes@),
            md@ + notes_text(views.take(i as int), outs) == notes_text(views, outs),
        decreases i,
    {
        let ghost before = md@;
        let ghost upto = views.take(i as int);
        i = i - 1;
        let block: String = render_note(&notes[i], &outcomes[i]);
        md.append(block.as_str());
        proof {
            assert(upto.last() == notes@[i as int]@);
            assert(outs[i as int] == outcome_view(outcomes@[i as int]));
            assert(upto.drop_last() =~= views.take(i as int));
            assert(md@ + notes_text(views.take(i as int), outs) =~= before + notes_text(
                upto,
                outs,
            ));
        }
    }
    proof {
        assert(views.take(0) =~= Seq::<NoteView>::empty());
        assert(md@ + notes_text(views.take(0), outs) =~= md@);
    }
    md
}

} // verus!
