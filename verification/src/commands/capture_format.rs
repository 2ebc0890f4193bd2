//! The `capture_format` command. A picture format is held as its position
//! in the list of formats the image crate enumerates.

use image::ImageFormat;
use vstd::prelude::*;
use crate::commands::selection::{acc, acc_text};
use crate::state::{AppState, RenderSettings, info_msg, logged, success_msg, with_rs};
use crate::text::{ascii_lower, join, join_strings, strings_view, strs_view};

verus! {

/// How many formats `ImageFormat::all()` yields.
pub const IMAGE_FORMAT_COUNT: usize = 16;

/// The format selected by default: PNG.
pub const DEFAULT_IMAGE_FORMAT: usize = 3;

/// The first extension of each format, in the order of `ImageFormat::all()`.
pub open spec fn format_extensions() -> Seq<Seq<char>> {
    seq![
        "gif"@, "ico"@, "jpg"@, "png"@, "bmp"@, "tiff"@, "tga"@, "pbm"@,
        "ff"@, "avif"@, "webp"@, "exr"@, "qoi"@, "dds"@, "hdr"@, "pcx"@,
    ]
}

/// The format an extension designates, letter case aside, as its position
/// in `ImageFormat::all()`.
pub open spec fn extension_format(ext: Seq<char>) -> Option<usize> {
    let e = ascii_lower(ext);
    if e == "gif"@ { Some(0) }
    else if e == "ico"@ { Some(1) }
    else if e == "jpg"@ || e == "jpeg"@ || e == "jfif"@ { Some(2) }
    else if e == "png"@ || e == "apng"@ { Some(3) }
    else if e == "bmp"@ { Some(4) }
    else if e == "tif"@ || e == "tiff"@ { Some(5) }
    else if e == "tga"@ { Some(6) }
    else if e == "pbm"@ || e == "pam"@ || e == "ppm"@ || e == "pgm"@ || e == "pnm"@ { Some(7) }
    else if e == "ff"@ { Some(8) }
    else if e == "avif"@ { Some(9) }
    else if e == "webp"@ { Some(10) }
    else if e == "exr"@ { Some(11) }
    else if e == "qoi"@ { Some(12) }
    else if e == "dds"@ { Some(13) }
    else if e == "hdr"@ { Some(14) }
    else { None }
}

/// `ImageFormat::extensions_str()[0]` of the `i`-th format of
/// `ImageFormat::all()`: its first extension, as the crate's source lists
/// them.
#[verifier::external_body]
fn format_extension(i: usize) -> (r: &'static str)
    requires
        i < IMAGE_FORMAT_COUNT,
    ensures
        r@ == format_extensions()[i as int],
{
    match ImageFormat::all().nth(i) {
        Some(f) => f.extensions_str()[0],
        None => "",
    }
}

/// `ImageFormat::from_extension`, the format given back as its position in
/// `ImageFormat::all()`: the crate lower-cases the ASCII letters of the
/// extension and looks it up in a fixed table.
#[verifier::external_body]
fn format_from_extension(ext: &str) -> (r: Option<usize>)
    ensures
        r == extension_format(ext@),
{
    let f = ImageFormat::from_extension(ext)?;
    ImageFormat::all().position(|g| g == f)
}

/// The accented first extension of each format.
pub open spec fn format_items() -> Seq<Seq<char>> {
    Seq::new(IMAGE_FORMAT_COUNT as nat, |i: int| acc(format_extensions()[i]))
}

/// The message `capture_format` logs without arguments.
pub open spec fn format_overview(current: int) -> Seq<char> {
    "Selected capture format: <acc "@ + format_extensions()[current] + ">\nAvailable formats:\n"@
        + join(format_items(), ", "@) + "."@
}

/// `capture_format`: without arguments the formats are listed; otherwise
/// the format of the extension is selected, or an error returned when the
/// extension names none.
pub open spec fn capture_format_post(old: AppState, args: Seq<Seq<char>>, new: AppState, r: Result<(), Seq<char>>) -> bool {
    if args.len() == 0 {
        r is Ok && logged(old, old, new, info_msg(format_overview(old.render_settings.image_format as int)))
    } else {
        match extension_format(args[0]) {
            None => r == Err::<(), Seq<char>>("Image format not recognized."@) && new == old,
            Some(i) => r is Ok && logged(old,
                with_rs(old, RenderSettings { image_format: i, ..old.render_settings }), new,
                success_msg("Successfully selected capture format: <acc "@ + format_extensions()[i as int] + ">"@)),
        }
    }
}

fn format_list() -> (r: Vec<String>)
    ensures
        strings_view(r@) == format_items(),
{
    let mut r: Vec<String> = Vec::new();
    let mut i: usize = 0;
    while i < IMAGE_FORMAT_COUNT
        invariant
            i <= IMAGE_FORMAT_COUNT,
            strings_view(r@) == format_items().take(i as int),
        decreases IMAGE_FORMAT_COUNT - i,
    {
        let item = acc_text(format_extension(i));
        proof {
            assert(strings_view(r@.push(item)) =~= strings_view(r@).push(item@));
            assert(format_items().take(i + 1) =~= format_items().take(i as int).push(format_items()[i as int]));
        }
        r.push(item);
        i = i + 1;
    }
    proof {
        assert(format_items().take(IMAGE_FORMAT_COUNT as int) =~= format_items());
    }
    r
}

/// Lists the picture formats, or selects the one of the given extension.
pub fn execute_capture_format(state: &mut AppState, args: Vec<&str>) -> (r: Result<(), String>)
    requires
        old(state).render_settings.image_format < IMAGE_FORMAT_COUNT,
    ensures
        capture_format_post(*old(state), strs_view(args@), *final(state), crate::commands::command_increment::result_view(r)),
{
    if args.len() == 0 {
        let mut s = String::from_str("Selected capture format: <acc ");
        s.append(format_extension(state.render_settings.image_format));
        s.append(">\nAvailable formats:\n");
        let items = format_list();
        let list = join_strings(&items, ", ");
        s.append(list.as_str());
        s.append(".");
        state.log_info(s.as_str());
        return Ok(());
    }
    match format_from_extension(args[0]) {
        None => Err(String::from_str("Image format not recognized.")),
        Some(i) => {
            state.render_settings.image_format = i;
            let mut s = String::from_str("Successfully selected capture format: <acc ");
            s.append(format_extension(i));
            s.append(">");
            state.log_success(s.as_str());
            Ok(())
        },
    }
}

} // verus!
