//! Screenshot handling around the report: cropping a capture to a selected
//! region, naming the files that capture writes, and waiting for the
//! snipping tool.

use crate::error::ReportError;
use crate::text::{decimal, decimal_text, signed_decimal, signed_decimal_text};
use image::GenericImageView;
use vstd::prelude::*;
use vstd::string::*;

verus! {

/// `image::DynamicImage`: a decoded image, carried as it is. Of what it
/// holds, only its extent is spoken of.
#[verifier::external_type_specification]
#[verifier::external_body]
pub struct ExDynamicImage(image::DynamicImage);

/// The width and the height of an image, in pixels.
pub uninterp spec fn image_extent(img: image::DynamicImage) -> (u32, u32);

/// `image::GenericImageView::dimensions` of a `DynamicImage`: its width and
/// height.
#[verifier::external_body]
fn dimensions(img: &image::DynamicImage) -> (r: (u32, u32))
    ensures
        r == image_extent(*img),
{
    img.dimensions()
}

/// The colour of the pixel in column `x` and row `y` of an image: its red,
/// green, blue and alpha.
pub uninterp spec fn image_pixel(img: image::DynamicImage, x: u32, y: u32) -> (u8, u8, u8, u8);

/// `image::GenericImageView::get_pixel` of a `DynamicImage`: the colour of
/// the pixel at (`x`, `y`), which has to lie inside the image.
#[verifier::external_body]
fn get_pixel(img: &image::DynamicImage, x: u32, y: u32) -> (r: (u8, u8, u8, u8))
    requires
        x < image_extent(*img).0,
        y < image_extent(*img).1,
    ensures
        r == image_pixel(*img, x, y),
{
    let pixel = img.get_pixel(x, y);
    (pixel.0[0], pixel.0[1], pixel.0[2], pixel.0[3])
}

/// Where a cut asked for at (`x`, `y`) starts in an image of the extent
/// `extent`: there, or on the image's far edge where that lies nearer.
pub open spec fn cut_origin(extent: (u32, u32), x: u32, y: u32) -> (u32, u32) {
    (
        if x < extent.0 {
            x
        } else {
            extent.0
        },
        if y < extent.1 {
            y
        } else {
            extent.1
        },
    )
}

/// The extent of a cut asked for at (`x`, `y`), `width` wide and `height`
/// high, from an image of the extent `extent`: as asked, or as much as the
/// image holds from the cut's start.
pub open spec fn cut_extent(extent: (u32, u32), x: u32, y: u32, width: u32, height: u32) -> (
    u32,
    u32,
) {
    let (left, top) = cut_origin(extent, x, y);
    (
        if width < extent.0 - left {
            width
        } else {
            (extent.0 - left) as u32
        },
        if height < extent.1 - top {
            height
        } else {
            (extent.1 - top) as u32
        },
    )
}

/// `image::DynamicImage::crop_imm`: a new image cut out of `img`. The cut
/// starts at (`x`, `y`), moved onto the image's edge where it lies beyond
/// it, and is as wide and high as asked or as the image allows from there.
/// Each of its pixels is the pixel of `img` that lies as far from the cut's
/// start.
#[verifier::external_body]
fn crop_imm(img: &image::DynamicImage, x: u32, y: u32, width: u32, height: u32) -> (r:
    image::DynamicImage)
    ensures
        image_extent(r) == cut_extent(image_extent(*img), x, y, width, height),
        forall|i: u32, j: u32|
            i < image_extent(r).0 && j < image_extent(r).1 ==> #[trigger] image_pixel(r, i, j)
                == image_pixel(
                *img,
                (cut_origin(image_extent(*img), x, y).0 + i) as u32,
                (cut_origin(image_extent(*img), x, y).1 + j) as u32,
            ),
{
    img.crop_imm(x, y, width, height)
}

/// A rectangle inside an image, in pixels.
#[derive(Clone, Copy, Debug, PartialEq, Eq, Structural)]
pub struct CropRect {
    pub x: u32,
    pub y: u32,
    pub width: u32,
    pub height: u32,
}

/// The part of the rectangle at (`x`, `y`), `width` wide and `height` high,
/// that lies inside an image of `img_width` by `img_height` pixels; none
/// where no pixel of it does.
pub open spec fn clamped_rect(
    x: u32,
    y: u32,
    width: u32,
    height: u32,
    img_width: u32,
    img_height: u32,
) -> Option<CropRect> {
    let right = if x + width < img_width {
        x + width
    } else {
        img_width as int
    };
    let bottom = if y + height < img_height {
        y + height
    } else {
        img_height as int
    };
    if x >= right || y >= bottom {
        None
    } else {
        Some(CropRect { x, y, width: (right - x) as u32, height: (bottom - y) as u32 })
    }
}

/// Clamps a selected rectangle to the bounds of an image. A rectangle that
/// is empty or lies outside the image is an error.
pub fn clamp_crop(x: u32, y: u32, width: u32, height: u32, img_width: u32, img_height: u32) -> (r:
    Result<CropRect, ReportError>)
    ensures
        match r {
            Ok(rect) => clamped_rect(x, y, width, height, img_width, img_height) == Some(rect),
            Err(e) => clamped_rect(x, y, width, height, img_width, img_height) is None && e
                == ReportError::CropOutsideImage,
        },
{
    let far_x: u64 = x as u64 + width as u64;
    let far_y: u64 = y as u64 + height as u64;
    let right: u64 = if far_x < img_width as u64 {
        far_x
    } else {
        img_width as u64
    };
    let bottom: u64 = if far_y < img_height as u64 {
        far_y
    } else {
        img_height as u64
    };
    if x as u64 >= right || y as u64 >= bottom {
        Err(ReportError::CropOutsideImage)
    } else {
        Ok(CropRect { x, y, width: (right - x as u64) as u32, height: (bottom - y as u64) as u32 })
    }
}

/// The colour of the pixel of `img` at (`x`, `y`) as red, green, blue and
/// alpha, or `None` where the image has no such pixel.
pub fn pixel_at(img: &image::DynamicImage, x: u32, y: u32) -> (r: Option<(u8, u8, u8, u8)>)
    ensures
        r == if x < image_extent(*img).0 && y < image_extent(*img).1 {
            Some(image_pixel(*img, x, y))
        } else {
            None
        },
{
    let (img_width, img_height) = dimensions(img);
    if x < img_width && y < img_height {
        Some(get_pixel(img, x, y))
    } else {
        None
    }
}

/// Cuts the selected rectangle out of `img`, clamped to the image's bounds.
/// The result has the extent of the clamped rectangle, and its pixel
/// (`i`, `j`) is the pixel (`x + i`, `y + j`) of `img`; a rectangle that is
/// empty or lies outside the image is an error.
pub fn crop_image(img: &image::DynamicImage, x: u32, y: u32, width: u32, height: u32) -> (r: Result<
    image::DynamicImage,
    ReportError,
>)
    ensures
        match r {
            Ok(cut) => {
                &&& clamped_rect(
                    x,
                    y,
                    width,
                    height,
                    image_extent(*img).0,
                    image_extent(*img).1,
                ) matches Some(rect) && image_extent(cut) == (rect.width, rect.height)
                &&& forall|i: u32, j: u32|
                    i < image_extent(cut).0 && j < image_extent(cut).1 ==> #[trigger] image_pixel(
                        cut,
                        i,
                        j,
                    ) == image_pixel(*img, (x + i) as u32, (y + j) as u32)
            },
            Err(e) => clamped_rect(
                x,
                y,
                width,
                height,
                image_extent(*img).0,
                image_extent(*img).1,
            ) is None && e == ReportError::CropOutsideImage,
        },
{
    let (img_width, img_height) = dimensions(img);
    match clamp_crop(x, y, width, height, img_width, img_height) {
        Ok(rect) => Ok(crop_imm(img, rect.x, rect.y, rect.width, rect.height)),
        Err(e) => Err(e),
    }
}

/// The stem that names a file written beside a screenshot: the screenshot's
/// own, or `screenshot` where it has none.
pub open spec fn stem_text(stem: Option<Seq<char>>) -> Seq<char> {
    match stem {
        Some(stem) => stem,
        None => "screenshot"@,
    }
}

/// The extension of a duplicated screenshot: the screenshot's own, or `png`
/// where it has none.
pub open spec fn extension_text(extension: Option<Seq<char>>) -> Seq<char> {
    match extension {
        Some(extension) => extension,
        None => "png"@,
    }
}

/// The name of the duplicate of a screenshot made at `millis` milliseconds
/// since the Unix epoch. The first attempt carries the time alone; attempt
/// `n` after it carries `n` as well, to sidestep a name that is taken.
pub open spec fn unique_copy_text(
    stem: Option<Seq<char>>,
    extension: Option<Seq<char>>,
    millis: u128,
    attempt: u32,
) -> Seq<char> {
    if attempt == 0 {
        stem_text(stem) + "-"@ + decimal(millis as nat) + "."@ + extension_text(extension)
    } else {
        stem_text(stem) + "-"@ + decimal(millis as nat) + "-"@ + decimal(attempt as nat) + "."@
            + extension_text(extension)
    }
}

/// The name of the file that holds the region cut out of a screenshot at
/// `millis` milliseconds since the Unix epoch.
pub open spec fn region_file_text(stem: Option<Seq<char>>, millis: i64) -> Seq<char> {
    stem_text(stem) + "-region-"@ + signed_decimal(millis as int) + ".png"@
}

/// The name of the file that holds a snip taken at `millis` milliseconds
/// since the Unix epoch.
pub open spec fn snip_file_text(millis: i64) -> Seq<char> {
    "windows-snip-"@ + signed_decimal(millis as int) + ".png"@
}

/// An optional text as plain characters.
pub open spec fn option_text(value: Option<&str>) -> Option<Seq<char>> {
    match value {
        Some(text) => Some(text@),
        None => None,
    }
}

/// Checks that the screenshot at `path` can be duplicated beside itself:
/// `exists` says whether the file is on disk, `has_directory` whether its
/// path names a directory that holds it.
pub fn check_copy_source(path: &str, exists: bool, has_directory: bool) -> (r: Result<
    (),
    ReportError,
>)
    ensures
        match r {
            Ok(_) => exists && has_directory,
            Err(ReportError::MissingSource { path: missing }) => !exists && missing@ == path@,
            Err(ReportError::NoScreenshotDirectory) => exists && !has_directory,
            Err(_) => false,
        },
{
    if !exists {
        Err(ReportError::MissingSource { path: path.to_string() })
    } else if !has_directory {
        Err(ReportError::NoScreenshotDirectory)
    } else {
        Ok(())
    }
}

/// Starts a file name with the stem of the screenshot that it belongs to.
fn stem_string(stem: Option<&str>) -> (r: String)
    ensures
        r@ == stem_text(option_text(stem)),
{
    match stem {
        Some(stem) => stem.to_string(),
        None => "screenshot".to_string(),
    }
}

/// Names the duplicate of a screenshot, such as `shot-1700000000000.png`,
/// or `shot-1700000000000-2.png` for the second attempt after a name that
/// was taken.
pub fn unique_copy_name(stem: Option<&str>, extension: Option<&str>, millis: u128, attempt: u32) -> (r:
    String)
    ensures
        r@ == unique_copy_text(option_text(stem), option_text(extension), millis, attempt),
{
    let mut name: String = stem_string(stem);
    name.append("-");
    name.append(decimal_text(millis).as_str());
    if attempt != 0 {
        name.append("-");
        name.append(decimal_text(attempt as u128).as_str());
    }
    name.append(".");
    match extension {
        Some(extension) => {
            name.append(extension);
        },
        None => {
            name.append("png");
        },
    }
    assert(name@ =~= unique_copy_text(
        option_text(stem),
        option_text(extension),
        millis,
        attempt,
    ));
    name
}

/// The attempt to make after attempt `attempt` at naming a duplicate:
/// `taken` says whether a file of that attempt's name is on disk. The next
/// attempt follows while the name is taken and attempts are left; once the
/// name is free, or no attempt is left, there is none.
pub fn next_copy_attempt(attempt: u32, taken: bool) -> (r: Option<u32>)
    ensures
        r == if taken && attempt < u32::MAX {
            Some((attempt + 1) as u32)
        } else {
            None
        },
{
    if taken && attempt < u32::MAX {
        Some(attempt + 1)
    } else {
        None
    }
}

/// Names the file of a region cut out of a screenshot, such as
/// `shot-region-1700000000000.png`.
pub fn region_file_name(stem: Option<&str>, millis: i64) -> (r: String)
    ensures
        r@ == region_file_text(option_text(stem), millis),
{
    let mut name: String = stem_string(stem);
    name.append("-region-");
    name.append(signed_decimal_text(millis).as_str());
    name.append(".png");
    name
}

/// Names the file of a snip, such as `windows-snip-1700000000000.png`.
pub fn snip_file_name(millis: i64) -> (r: String)
    ensures
        r@ == snip_file_text(millis),
{
    let mut name: String = "windows-snip-".to_string();
    name.append(signed_decimal_text(millis).as_str());
    name.append(".png");
    name
}

/// How long the wait for a snip lasts where the caller sets no limit, in
/// milliseconds.
pub const DEFAULT_SNIP_TIMEOUT_MS: u64 = 45_000;

/// The pause between two looks at the clipboard, in milliseconds.
pub const SNIP_POLL_MS: u64 = 150;

/// What tells one clipboard image from another: its extent and a digest of
/// its pixels.
#[derive(Clone, Copy, Debug, PartialEq, Eq, Structural)]
pub struct Fingerprint {
    pub width: usize,
    pub height: usize,
    pub digest: u64,
}

/// What to do next while waiting for a snip.
#[derive(Clone, Copy, Debug, PartialEq, Eq, Structural)]
pub enum SnipStep {
    /// The clipboard holds a new image: save it.
    Capture,
    /// Nothing new yet: look again after so many milliseconds.
    Wait { millis: u64 },
    /// The time is up: there is no snip.
    GiveUp,
}

/// The limit of the wait for a snip: the caller's, or the default.
pub fn snip_timeout_ms(requested: Option<u64>) -> (r: u64)
    ensures
        r == match requested {
            Some(limit) => limit,
            None => DEFAULT_SNIP_TIMEOUT_MS,
        },
{
    match requested {
        Some(limit) => limit,
        None => DEFAULT_SNIP_TIMEOUT_MS,
    }
}

/// Whether the snipping tool is running: the first way of starting it
/// worked, or the second did, which is tried only after the first failed.
pub fn check_snip_launch(first_started: bool, second_started: bool) -> (r: Result<(), ReportError>)
    ensures
        r is Ok <==> first_started || second_started,
        r matches Err(e) ==> e == ReportError::SnipToolNotLaunched,
{
    if first_started || second_started {
        Ok(())
    } else {
        Err(ReportError::SnipToolNotLaunched)
    }
}

/// The step that `snip_step` takes.
pub open spec fn snip_step_of(
    elapsed_ms: u128,
    timeout_ms: u64,
    baseline: Option<Fingerprint>,
    current: Option<Fingerprint>,
) -> SnipStep {
    if elapsed_ms >= timeout_ms {
        SnipStep::GiveUp
    } else if current is Some && current != baseline {
        SnipStep::Capture
    } else {
        SnipStep::Wait { millis: SNIP_POLL_MS }
    }
}

/// Decides the next step of the wait for a snip. `elapsed_ms` is the time
/// waited so far, `baseline` the image that the clipboard held before the
/// tool started and `current` the image that it holds now, if any. The wait
/// ends without a snip once the limit is reached; before that, an image
/// that differs from the baseline is the snip.
pub fn snip_step(
    elapsed_ms: u128,
    timeout_ms: u64,
    baseline: Option<Fingerprint>,
    current: Option<Fingerprint>,
) -> (r: SnipStep)
    ensures
        r == snip_step_of(elapsed_ms, timeout_ms, baseline, current),
{
    if elapsed_ms >= timeout_ms as u128 {
        return SnipStep::GiveUp;
    }
    match current {
        Some(seen) => {
            let fresh: bool = match baseline {
                Some(before) => !(seen.width == before.width && seen.height == before.height
                    && seen.digest == before.digest),
                None => true,
            };
            if fresh {
                SnipStep::Capture
            } else {
                SnipStep::Wait { millis: SNIP_POLL_MS }
            }
        },
        None => SnipStep::Wait { millis: SNIP_POLL_MS },
    }
}

} // verus!
