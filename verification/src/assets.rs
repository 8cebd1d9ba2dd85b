//! Where the report's assets lie inside the export folder.

use crate::error::ReportError;
use crate::model::IconKind;
use vstd::prelude::*;
use vstd::string::*;

verus! {

/// The folder of the icons, relative to the export folder.
pub open spec fn icons_dir_text() -> Seq<char> {
    "assets/icons"@
}

/// The folder of the screenshots, relative to the export folder.
pub open spec fn screenshots_dir_text() -> Seq<char> {
    "assets/screenshots"@
}

/// The path, relative to the report, of the copy of a screenshot whose file
/// is named `file_name`.
pub open spec fn screenshot_rel_text(file_name: Seq<char>) -> Seq<char> {
    screenshots_dir_text() + "/"@ + file_name
}

/// The folder that the icons are copied to, relative to the export folder.
pub fn icons_dir() -> (r: &'static str)
    ensures
        r@ == icons_dir_text(),
{
    "assets/icons"
}

/// The folder that the screenshots are copied to, relative to the export
/// folder.
pub fn screenshots_dir() -> (r: &'static str)
    ensures
        r@ == screenshots_dir_text(),
{
    "assets/screenshots"
}

/// The icon categories, in the order in which their icons are copied.
pub fn icon_kinds() -> (r: Vec<IconKind>)
    ensures
        r@ == seq![
            IconKind::Bug,
            IconKind::Idea,
            IconKind::Observation,
            IconKind::Question,
            IconKind::Warning,
        ],
{
    let mut r: Vec<IconKind> = Vec::new();
    r.push(IconKind::Bug);
    r.push(IconKind::Idea);
    r.push(IconKind::Observation);
    r.push(IconKind::Question);
    r.push(IconKind::Warning);
    assert(r@ =~= seq![
        IconKind::Bug,
        IconKind::Idea,
        IconKind::Observation,
        IconKind::Question,
        IconKind::Warning,
    ]);
    r
}

/// Decides on the copy of the screenshot at `source`. `exists` says whether
/// the file is on disk and `file_name` is the last component of the path, if
/// it has one. Where the copy can be made, the result is the copy's path
/// relative to the report; it keeps the file's name.
pub fn screenshot_asset_path(source: &str, exists: bool, file_name: Option<&str>) -> (r: Result<
    String,
    ReportError,
>)
    ensures
        match r {
            Ok(path) => exists && (file_name matches Some(name) && path@ == screenshot_rel_text(
                name@,
            )),
            Err(ReportError::MissingScreenshot { path }) => !exists && path@ == source@,
            Err(ReportError::NoScreenshotFileName) => exists && file_name is None,
            Err(_) => false,
        },
{
    if !exists {
        return Err(ReportError::MissingScreenshot { path: source.to_string() });
    }
    match file_name {
        Some(name) => {
            let mut path: String = screenshots_dir().to_string();
            path.append("/");
            path.append(name);
            Ok(path)
        },
        None => Err(ReportError::NoScreenshotFileName),
    }
}

} // verus!
