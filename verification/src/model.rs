//! The session record that a report is made from.

use crate::text::lowercase;
use vstd::prelude::*;
use vstd::string::*;

verus! {

/// One recorded observation. `note_type` is a free-form label; upper and
/// lower case are not told apart when it is read.
#[derive(Clone, Debug)]
pub struct Note {
    pub text: String,
    pub note_type: String,
}

/// What a `Note` holds, as plain text.
pub struct NoteView {
    pub text: Seq<char>,
    pub note_type: Seq<char>,
}

impl View for Note {
    type V = NoteView;

    open spec fn view(&self) -> NoteView {
        NoteView { text: self.text@, note_type: self.note_type@ }
    }
}

/// The views of a run of notes, in the same order.
pub open spec fn note_views(notes: Seq<Note>) -> Seq<NoteView> {
    notes.map_values(|n: Note| n@)
}

/// A testing session: who ran it, its charter, when it started (milliseconds
/// since the Unix epoch), how long it took, and its notes, newest first.
#[derive(Clone, Debug)]
pub struct Session {
    pub tester_name: Option<String>,
    pub charter: String,
    pub duration_minutes: Option<i64>,
    pub started_at: i64,
    pub notes: Vec<Note>,
}

/// What a `Session` holds, as plain values.
pub struct SessionView {
    pub tester_name: Option<Seq<char>>,
    pub charter: Seq<char>,
    pub duration_minutes: Option<i64>,
    pub started_at: i64,
    pub notes: Seq<NoteView>,
}

impl View for Session {
    type V = SessionView;

    open spec fn view(&self) -> SessionView {
        SessionView {
            tester_name: match self.tester_name {
                Some(name) => Some(name@),
                None => None,
            },
            charter: self.charter@,
            duration_minutes: self.duration_minutes,
            started_at: self.started_at,
            notes: note_views(self.notes@),
        }
    }
}

/// The note categories that have an icon and are counted in the summary.
#[derive(Clone, Copy, Debug, PartialEq, Eq, Structural)]
pub enum IconKind {
    Bug,
    Idea,
    Observation,
    Question,
    Warning,
}

impl IconKind {
    /// The category that a lower-case type label names, if any.
    pub open spec fn of_label(label: Seq<char>) -> Option<IconKind> {
        if label == "bug"@ {
            Some(IconKind::Bug)
        } else if label == "idea"@ {
            Some(IconKind::Idea)
        } else if label == "observation"@ {
            Some(IconKind::Observation)
        } else if label == "question"@ {
            Some(IconKind::Question)
        } else if label == "warning"@ {
            Some(IconKind::Warning)
        } else {
            None
        }
    }

    /// The name of the category's icon file.
    pub open spec fn file(self) -> Seq<char> {
        match self {
            IconKind::Bug => "bug.png"@,
            IconKind::Idea => "idea.png"@,
            IconKind::Observation => "observation.png"@,
            IconKind::Question => "question.png"@,
            IconKind::Warning => "warning.png"@,
        }
    }

    /// The word for one note of the category.
    pub open spec fn singular(self) -> Seq<char> {
        match self {
            IconKind::Bug => "Bug"@,
            IconKind::Idea => "Idea"@,
            IconKind::Observation => "Observation"@,
            IconKind::Question => "Question"@,
            IconKind::Warning => "Warning"@,
        }
    }

    /// The word for several notes of the category.
    pub open spec fn plural(self) -> Seq<char> {
        match self {
            IconKind::Bug => "Bugs"@,
            IconKind::Idea => "Ideas"@,
            IconKind::Observation => "Observations"@,
            IconKind::Question => "Questions"@,
            IconKind::Warning => "Warnings"@,
        }
    }

    /// The inline image that shows the category's icon, with the space that
    /// parts it from the text behind it.
    pub open spec fn tag(self) -> Seq<char> {
        "<img src=\"assets/icons/"@ + self.file() + "\" width=\"50\" valign=\"middle\"> "@
    }

    /// Reads a lower-case type label.
    pub fn from_label(label: &str) -> (r: Option<IconKind>)
        ensures
            r == IconKind::of_label(label@),
    {
        if crate::text::same_text(label, "bug") {
            Some(IconKind::Bug)
        } else if crate::text::same_text(label, "idea") {
            Some(IconKind::Idea)
        } else if crate::text::same_text(label, "observation") {
            Some(IconKind::Observation)
        } else if crate::text::same_text(label, "question") {
            Some(IconKind::Question)
        } else if crate::text::same_text(label, "warning") {
            Some(IconKind::Warning)
        } else {
            None
        }
    }

    /// The name of the category's icon file, such as `bug.png`.
    pub fn file_name(self) -> (r: &'static str)
        ensures
            r@ == self.file(),
    {
        match self {
            IconKind::Bug => "bug.png",
            IconKind::Idea => "idea.png",
            IconKind::Observation => "observation.png",
            IconKind::Question => "question.png",
            IconKind::Warning => "warning.png",
        }
    }

    /// The inline image that shows the category's icon.
    pub fn image_tag(self) -> (r: String)
        ensures
            r@ == self.tag(),
    {
        let mut r: String = "<img src=\"assets/icons/".to_string();
        r.append(self.file_name());
        r.append("\" width=\"50\" valign=\"middle\"> ");
        r
    }

    /// The word for one note of the category, such as `Bug`.
    pub fn singular_label(self) -> (r: &'static str)
        ensures
            r@ == self.singular(),
    {
        match self {
            IconKind::Bug => "Bug",
            IconKind::Idea => "Idea",
            IconKind::Observation => "Observation",
            IconKind::Question => "Question",
            IconKind::Warning => "Warning",
        }
    }

    /// The word for several notes of the category, such as `Bugs`.
    pub fn plural_label(self) -> (r: &'static str)
        ensures
            r@ == self.plural(),
    {
        match self {
            IconKind::Bug => "Bugs",
            IconKind::Idea => "Ideas",
            IconKind::Observation => "Observations",
            IconKind::Question => "Questions",
            IconKind::Warning => "Warnings",
        }
    }
}

/// The icon category of a note: the one that its type label names once it is
/// lower-cased.
pub open spec fn category(note: NoteView) -> Option<IconKind> {
    IconKind::of_label(lowercase(note.note_type))
}

} // verus!
