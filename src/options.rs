//! The options of a render request, and the reducer that overlays them on the
//! defaults.
//!
//! Font sizes and the shadow's blur radius are floating-point values: they stay
//! with the caller, which hands them to the renderer directly.
use vstd::prelude::*;

verus! {

/// A color as four 8-bit channels; alpha 0 is fully transparent.
#[derive(Debug, Clone, Copy, PartialEq, Eq, Structural)]
pub struct ColorRgba {
    pub r: u8,
    pub g: u8,
    pub b: u8,
    pub a: u8,
}

#[verifier::external_type_specification]
#[verifier::reject_recursive_types(T)]
pub struct ExPixelRgba<T>(image::Rgba<T>);

/// The pixel of the image library with the same four channels.
impl From<ColorRgba> for image::Rgba<u8> {
    fn from(val: ColorRgba) -> (r: image::Rgba<u8>)
        ensures
            r.0@ == seq![val.r, val.g, val.b, val.a],
    {
        let r = image::Rgba::<u8>([val.r, val.g, val.b, val.a]);
        assert(r.0@ =~= seq![val.r, val.g, val.b, val.a]);
        r
    }
}

impl vstd::std_specs::convert::FromSpecImpl<ColorRgba> for image::Rgba<u8> {
    open spec fn obeys_from_spec() -> bool {
        true
    }

    open spec fn from_spec(v: ColorRgba) -> image::Rgba<u8> {
        image::Rgba([v.r, v.g, v.b, v.a])
    }
}

/// What the shadow is drawn over.
#[derive(Debug, Clone, Copy, PartialEq, Eq, Structural)]
pub enum Background {
    Solid(ColorRgba),
}

/// Shadow options as a request gives them; an absent field keeps its default.
#[derive(Debug, Clone, Copy)]
pub struct ShadowOptions {
    pub background: Option<Background>,
    pub shadow_color: Option<ColorRgba>,
    pub pad_horiz: Option<u32>,
    pub pad_vert: Option<u32>,
    pub offset_x: Option<i32>,
    pub offset_y: Option<i32>,
}

/// Image options as a request gives them; an absent field keeps its default.
#[derive(Debug, Clone)]
pub struct ImageOptions {
    /// Pixels between lines.
    pub line_pad: Option<u32>,
    /// Whether line numbers are drawn.
    pub line_number: Option<bool>,
    /// Line numbers, from 1, drawn with a distinct background.
    pub highlight_lines: Option<Vec<u32>>,
    /// Whether the window controls are drawn.
    pub window_controls: Option<bool>,
    /// Title shown in the window bar.
    pub window_title: Option<String>,
    /// Whether the corners of the image are rounded.
    pub round_corner: Option<bool>,
    /// The shadow; its presence turns the shadow on.
    pub shadow_adder: Option<ShadowOptions>,
    /// Columns a tab stands for.
    pub tab_width: Option<u8>,
    /// Number of the first line.
    pub line_offset: Option<u32>,
}

/// Shadow settings with every default applied. An absent background or shadow
/// color leaves the renderer's own.
#[derive(Debug, Clone, Copy)]
pub struct ShadowSettings {
    pub background: Option<Background>,
    pub shadow_color: Option<ColorRgba>,
    pub pad_horiz: u32,
    pub pad_vert: u32,
    pub offset_x: i32,
    pub offset_y: i32,
}

/// Image settings with every default applied.
#[derive(Debug, Clone)]
pub struct ImageSettings {
    pub line_pad: u32,
    pub line_number: bool,
    pub highlight_lines: Vec<u32>,
    pub window_controls: bool,
    pub window_title: Option<String>,
    pub round_corner: bool,
    pub shadow: Option<ShadowSettings>,
    pub tab_width: u8,
    pub line_offset: u32,
}

pub const DEFAULT_LINE_PAD: u32 = 2;

pub const DEFAULT_TAB_WIDTH: u8 = 4;

pub const DEFAULT_LINE_OFFSET: u32 = 1;

pub const DEFAULT_SHADOW_PAD_HORIZ: u32 = 80;

pub const DEFAULT_SHADOW_PAD_VERT: u32 = 100;

/// The given value, or `d` where none is given.
pub open spec fn given_or<T>(o: Option<T>, d: T) -> T {
    match o {
        Some(v) => v,
        None => d,
    }
}

/// The shadow settings that `o` asks for.
pub open spec fn shadow_settings(o: ShadowOptions) -> ShadowSettings {
    ShadowSettings {
        background: o.background,
        shadow_color: o.shadow_color,
        pad_horiz: given_or(o.pad_horiz, DEFAULT_SHADOW_PAD_HORIZ),
        pad_vert: given_or(o.pad_vert, DEFAULT_SHADOW_PAD_VERT),
        offset_x: given_or(o.offset_x, 0i32),
        offset_y: given_or(o.offset_y, 0i32),
    }
}

/// Shadow options that give no field.
pub open spec fn no_shadow_options() -> ShadowOptions {
    ShadowOptions {
        background: None,
        shadow_color: None,
        pad_horiz: None,
        pad_vert: None,
        offset_x: None,
        offset_y: None,
    }
}

/// Image options that give no field.
pub open spec fn no_image_options() -> ImageOptions {
    ImageOptions {
        line_pad: None,
        line_number: None,
        highlight_lines: None,
        window_controls: None,
        window_title: None,
        round_corner: None,
        shadow_adder: None,
        tab_width: None,
        line_offset: None,
    }
}

/// `s` is the image settings that `o` asks for: each given field as given, each
/// absent one at its default.
pub open spec fn is_image_settings(o: ImageOptions, s: ImageSettings) -> bool {
    &&& s.line_pad == given_or(o.line_pad, DEFAULT_LINE_PAD)
    &&& s.line_number == given_or(o.line_number, true)
    &&& s.highlight_lines@ == match o.highlight_lines {
        Some(v) => v@,
        None => Seq::<u32>::empty(),
    }
    &&& s.window_controls == given_or(o.window_controls, true)
    &&& s.window_title == o.window_title
    &&& s.round_corner == given_or(o.round_corner, true)
    &&& s.shadow == match o.shadow_adder {
        Some(so) => Some(shadow_settings(so)),
        None => None,
    }
    &&& s.tab_width == given_or(o.tab_width, DEFAULT_TAB_WIDTH)
    &&& s.line_offset == given_or(o.line_offset, DEFAULT_LINE_OFFSET)
}

/// The default shadow settings, used for every field a request leaves out.
pub fn default_shadow() -> (r: ShadowSettings)
    ensures
        r == shadow_settings(no_shadow_options()),
{
    ShadowSettings {
        background: None,
        shadow_color: None,
        pad_horiz: DEFAULT_SHADOW_PAD_HORIZ,
        pad_vert: DEFAULT_SHADOW_PAD_VERT,
        offset_x: 0,
        offset_y: 0,
    }
}

/// Overlays the given shadow options on the defaults.
pub fn resolve_shadow(o: ShadowOptions) -> (r: ShadowSettings)
    ensures
        r == shadow_settings(o),
{
    let d = default_shadow();
    ShadowSettings {
        background: o.background,
        shadow_color: o.shadow_color,
        pad_horiz: o.pad_horiz.unwrap_or(d.pad_horiz),
        pad_vert: o.pad_vert.unwrap_or(d.pad_vert),
        offset_x: o.offset_x.unwrap_or(d.offset_x),
        offset_y: o.offset_y.unwrap_or(d.offset_y),
    }
}

/// The default image settings: line numbers from 1, window controls and rounded
/// corners on, no highlighted lines, no title and no shadow.
pub fn default_image() -> (r: ImageSettings)
    ensures
        is_image_settings(no_image_options(), r),
{
    ImageSettings {
        line_pad: DEFAULT_LINE_PAD,
        line_number: true,
        highlight_lines: Vec::new(),
        window_controls: true,
        window_title: None,
        round_corner: true,
        shadow: None,
        tab_width: DEFAULT_TAB_WIDTH,
        line_offset: DEFAULT_LINE_OFFSET,
    }
}

/// Overlays the given image options on the defaults; with no options at all the
/// defaults stand.
pub fn resolve_image(opts: Option<ImageOptions>) -> (r: ImageSettings)
    ensures
        match opts {
            Some(o) => is_image_settings(o, r),
            None => is_image_settings(no_image_options(), r),
        },
{
    match opts {
        None => default_image(),
        Some(o) => {
            let d = default_image();
            let shadow = match o.shadow_adder {
                Some(so) => Some(resolve_shadow(so)),
                None => None,
            };
            ImageSettings {
                line_pad: o.line_pad.unwrap_or(d.line_pad),
                line_number: o.line_number.unwrap_or(d.line_number),
                highlight_lines: o.highlight_lines.unwrap_or(d.highlight_lines),
                window_controls: o.window_controls.unwrap_or(d.window_controls),
                window_title: o.window_title,
                round_corner: o.round_corner.unwrap_or(d.round_corner),
                shadow,
                tab_width: o.tab_width.unwrap_or(d.tab_width),
                line_offset: o.line_offset.unwrap_or(d.line_offset),
            }
        },
    }
}

} // verus!
