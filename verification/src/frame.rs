//! The window frame: the authored SVG template is kept as it is and only its size, viewBox and
//! two named paths are replaced when the window is resized, so the asset stays a valid,
//! viewable 800x600 SVG.
use vstd::prelude::*;
use crate::text::{chars_of, push_chars, push_text, split_first, split_once, string_of};

verus! {

/// The size attributes of the authored template.
pub const BASE_SIZE: &'static str = "width=\"800\" height=\"600\" viewBox=\"0 0 800 600\"";

/// The text that opens the data of the path with element id `id`.
pub open spec fn path_marker(id: Seq<char>) -> Seq<char> {
    "id=\""@ + id + "\" d=\""@
}

/// `svg` with the data of the path `id` replaced by `path`: the data runs from the path's
/// marker to the next double quote. Nothing when the marker or the closing quote is missing.
pub open spec fn replaced_path(svg: Seq<char>, id: Seq<char>, path: Seq<char>) -> Option<Seq<char>> {
    match split_first(svg, path_marker(id)) {
        None => None,
        Some((prefix, remainder)) => match split_first(remainder, "\""@) {
            None => None,
            Some((_, suffix)) => Some(prefix + path_marker(id) + path + "\""@ + suffix),
        },
    }
}

/// Replaces the data of the path with element id `id` in `svg` by `path`.
pub fn replace_path(svg: &str, id: &str, path: &str) -> (r: Option<String>)
    ensures
        match r {
            Some(s) => replaced_path(svg@, id@, path@) == Some(s@),
            None => replaced_path(svg@, id@, path@) is None,
        },
{
    let mut marker = chars_of("id=\"");
    push_text(&mut marker, id);
    push_text(&mut marker, "\" d=\"");
    assert(marker@ == path_marker(id@));
    let text = chars_of(svg);
    let (prefix, remainder) = match split_once(text.as_slice(), marker.as_slice()) {
        Some(parts) => parts,
        None => return None,
    };
    let quote = chars_of("\"");
    let suffix = match split_once(remainder.as_slice(), quote.as_slice()) {
        Some((_, suffix)) => suffix,
        None => return None,
    };
    let mut out = prefix;
    push_chars(&mut out, marker.as_slice());
    push_text(&mut out, path);
    push_text(&mut out, "\"");
    push_chars(&mut out, suffix.as_slice());
    Some(string_of(out.as_slice()))
}

/// The template resized to `width` by `height` (both already rendered as decimal text), with
/// the mask cut out of the whole canvas and the outline drawn along `outline`.
pub open spec fn framed_svg(template: Seq<char>, width: Seq<char>, height: Seq<char>, outline: Seq<
    char,
>) -> Option<Seq<char>> {
    match split_first(template, BASE_SIZE@) {
        None => None,
        Some((prefix, suffix)) => {
            let sized = prefix + "width=\""@ + width + "\" height=\""@ + height
                + "\" viewBox=\"0 0 "@ + width + " "@ + height + "\""@ + suffix;
            let mask = "M0 0 H"@ + width + " V"@ + height + " H0 Z "@ + outline;
            match replaced_path(sized, "frame-mask"@, mask) {
                None => None,
                Some(masked) => replaced_path(masked, "frame-outline"@, outline),
            }
        },
    }
}

/// The frame SVG for a window of `width` by `height`, from the authored `template`.
pub fn frame_svg(template: &str, width: &str, height: &str, outline: &str) -> (r: Option<String>)
    ensures
        match r {
            Some(s) => framed_svg(template@, width@, height@, outline@) == Some(s@),
            None => framed_svg(template@, width@, height@, outline@) is None,
        },
{
    let text = chars_of(template);
    let base = chars_of(BASE_SIZE);
    let (prefix, suffix) = match split_once(text.as_slice(), base.as_slice()) {
        Some(parts) => parts,
        None => return None,
    };
    let mut sized = prefix;
    push_text(&mut sized, "width=\"");
    push_text(&mut sized, width);
    push_text(&mut sized, "\" height=\"");
    push_text(&mut sized, height);
    push_text(&mut sized, "\" viewBox=\"0 0 ");
    push_text(&mut sized, width);
    push_text(&mut sized, " ");
    push_text(&mut sized, height);
    push_text(&mut sized, "\"");
    push_chars(&mut sized, suffix.as_slice());
    let sized_text = string_of(sized.as_slice());
    let mut mask = chars_of("M0 0 H");
    push_text(&mut mask, width);
    push_text(&mut mask, " V");
    push_text(&mut mask, height);
    push_text(&mut mask, " H0 Z ");
    push_text(&mut mask, outline);
    let mask_text = string_of(mask.as_slice());
    let masked = match replace_path(sized_text.as_str(), "frame-mask", mask_text.as_str()) {
        Some(masked) => masked,
        None => return None,
    };
    replace_path(masked.as_str(), "frame-outline", outline)
}

/// Whether the frame image has to be rendered again: the window's physical size or scale
/// (`key`) changed since the last render, or no image exists yet.
pub fn frame_needs_render(last: (u32, u32, u32), key: (u32, u32, u32), has_image: bool) -> (r: bool)
    ensures
        r == !(last == key && has_image),
{
    !(last.0 == key.0 && last.1 == key.1 && last.2 == key.2 && has_image)
}

} // verus!
