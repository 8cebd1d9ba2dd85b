//! Session reports for Rapid Reporter: the Markdown export of a recorded
//! testing session, and the decisions behind screenshot capture.
//!
//! Everything here is pure: callers perform the file-system, clipboard and
//! window work and hand the library plain values.

pub mod assets;
pub mod capture;
pub mod clock;
pub mod error;
pub mod laws;
pub mod model;
pub mod notes;
pub mod report;
pub mod summary;
pub mod text;

pub use crate::clock::{local_start, start_at_offset, LocalStart};
pub use crate::error::ReportError;
pub use crate::model::{IconKind, Note, Session};
pub use crate::notes::{
    render_block, render_note, render_notes, screenshot_source, source_for, CopyOutcome,
};
pub use crate::report::{export_dir_name, markdown_file_name, render_report, started_line};
pub use crate::summary::{build_summary_section, plural, summary_counts};
