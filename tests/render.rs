use image::{DynamicImage, Rgb, RgbImage, Rgba, RgbaImage};
use silicon_render::{
    encode_png, encode_rgba8, highlight, load_theme, select_sources, RenderError, ThemeSource,
};
use syntect::highlighting::ThemeSet;
use syntect::parsing::SyntaxSet;

const TINY_THEME: &str = "<?xml version=\"1.0\" encoding=\"UTF-8\"?>\n<!DOCTYPE plist PUBLIC \"-//Apple//DTD PLIST 1.0//EN\" \"http://www.apple.com/DTDs/PropertyList-1.0.dtd\">\n<plist version=\"1.0\"><dict><key>name</key><string>Tiny</string><key>settings</key><array><dict><key>settings</key><dict><key>background</key><string>#000000</string><key>foreground</key><string>#FFFFFF</string></dict></dict></array></dict></plist>\n";

fn named(s: &str) -> ThemeSource {
    ThemeSource::Named(String::from(s))
}

fn joined(lines: &[Vec<(syntect::highlighting::Style, &str)>]) -> Vec<String> {
    lines
        .iter()
        .map(|l| l.iter().map(|p| p.1).collect::<String>())
        .collect()
}

#[test]
fn unknown_language_is_reported() {
    let ss = SyntaxSet::load_defaults_newlines();
    let ts = ThemeSet::load_defaults();
    let theme = named("InspiredGitHub");
    let r = highlight(&ss, &ts, "x", "no-such-language", &theme);
    assert_eq!(r.err(), Some(RenderError::UnknownLanguage));
}

#[test]
fn unknown_theme_is_reported() {
    let ss = SyntaxSet::load_defaults_newlines();
    let ts = ThemeSet::load_defaults();
    let theme = named("No Such Theme");
    let r = highlight(&ss, &ts, "x", "rust", &theme);
    assert_eq!(r.err(), Some(RenderError::UnknownTheme));
}

#[test]
fn unknown_language_comes_before_unknown_theme() {
    let ss = SyntaxSet::load_defaults_newlines();
    let ts = ThemeSet::load_defaults();
    let theme = named("No Such Theme");
    let r = highlight(&ss, &ts, "x", "no-such-language", &theme);
    assert_eq!(r.err(), Some(RenderError::UnknownLanguage));
}

#[test]
fn theme_names_are_exact() {
    let ss = SyntaxSet::load_defaults_newlines();
    let ts = ThemeSet::load_defaults();
    let theme = named("inspiredgithub");
    let r = highlight(&ss, &ts, "x", "rust", &theme);
    assert_eq!(r.err(), Some(RenderError::UnknownTheme));
}

#[test]
fn highlighted_lines_give_back_the_code() {
    let ss = SyntaxSet::load_defaults_newlines();
    let ts = ThemeSet::load_defaults();
    let theme = named("InspiredGitHub");
    let code = "fn main() {\n\tlet x = 1;\n}";
    let h = highlight(&ss, &ts, code, "rust", &theme).ok().unwrap();
    assert_eq!(
        joined(&h.lines),
        vec!["fn main() {\n", "\tlet x = 1;\n", "}"]
    );
}

#[test]
fn empty_code_has_no_lines() {
    let ss = SyntaxSet::load_defaults_newlines();
    let ts = ThemeSet::load_defaults();
    let theme = named("base16-ocean.dark");
    let h = highlight(&ss, &ts, "", "py", &theme).ok().unwrap();
    assert!(h.lines.is_empty());
}

#[test]
fn trailing_newline_ends_last_line() {
    let ss = SyntaxSet::load_defaults_newlines();
    let ts = ThemeSet::load_defaults();
    let theme = named("base16-ocean.dark");
    let h = highlight(&ss, &ts, "a = 1\n\nb = 2\n", "python", &theme).ok().unwrap();
    assert_eq!(joined(&h.lines), vec!["a = 1\n", "\n", "b = 2\n"]);
}

#[test]
fn loaded_theme_needs_no_name() {
    let ss = SyntaxSet::load_defaults_newlines();
    let ts = ThemeSet::load_defaults();
    let theme = load_theme(TINY_THEME.as_bytes()).ok().unwrap();
    assert!(matches!(theme, ThemeSource::Loaded(_)));
    let h = highlight(&ss, &ts, "x = 1\ny = 2", "python", &theme).ok().unwrap();
    assert_eq!(joined(&h.lines), vec!["x = 1\n", "y = 2"]);
}

#[test]
fn malformed_theme_bytes_are_rejected() {
    let r = load_theme(b"not a theme at all");
    assert_eq!(r.err(), Some(RenderError::InvalidThemeAsset));
}

#[test]
fn lookup_outcomes() {
    assert_eq!(select_sources(None::<u8>, Some(1u8)), Err(RenderError::UnknownLanguage));
    assert_eq!(select_sources(None::<u8>, None::<u8>), Err(RenderError::UnknownLanguage));
    assert_eq!(select_sources(Some(2u8), None::<u8>), Err(RenderError::UnknownTheme));
    assert_eq!(select_sources(Some(2u8), Some(1u8)), Ok((2, 1)));
}

fn sample_image() -> DynamicImage {
    let mut img = RgbaImage::from_pixel(3, 2, Rgba([10, 20, 30, 255]));
    img.put_pixel(1, 0, Rgba([200, 100, 50, 0]));
    img.put_pixel(2, 1, Rgba([1, 2, 3, 128]));
    DynamicImage::ImageRgba8(img)
}

#[test]
fn png_output_is_a_png() {
    let bytes = encode_png(&sample_image()).ok().unwrap();
    assert_eq!(&bytes[0..8], &[137u8, 80, 78, 71, 13, 10, 26, 10]);
    let decoded = image::load_from_memory(&bytes).unwrap();
    assert_eq!((decoded.width(), decoded.height()), (3, 2));
}

#[test]
fn png_is_deterministic() {
    let a = encode_png(&sample_image()).ok().unwrap();
    let b = encode_png(&sample_image()).ok().unwrap();
    assert_eq!(a, b);
}

#[test]
fn rgba8_output_has_dimensions_and_pixels() {
    let out = encode_rgba8(&sample_image()).ok().unwrap();
    assert_eq!((out.width, out.height), (3, 2));
    assert_eq!(out.bytes.len(), 24);
    assert_eq!(&out.bytes[0..8], &[10, 20, 30, 255, 200, 100, 50, 0]);
    assert_eq!(&out.bytes[20..24], &[1, 2, 3, 128]);
}

#[test]
fn png_and_rgba8_decode_to_same_pixels() {
    let img = sample_image();
    let png = encode_png(&img).ok().unwrap();
    let raw = encode_rgba8(&img).ok().unwrap();
    let decoded = image::load_from_memory(&png).unwrap().to_rgba8();
    assert_eq!((decoded.width(), decoded.height()), (raw.width, raw.height));
    assert_eq!(decoded.into_raw(), raw.bytes);
}

#[test]
fn non_rgba_image_is_unsupported() {
    let img = DynamicImage::ImageRgb8(RgbImage::from_pixel(2, 2, Rgb([1, 2, 3])));
    assert_eq!(encode_rgba8(&img).err(), Some(RenderError::UnsupportedImageMode));
}

#[test]
fn language_keys_ignore_ascii_case() {
    let ss = SyntaxSet::load_defaults_newlines();
    let ts = ThemeSet::load_defaults();
    let theme = named("InspiredGitHub");
    let h = highlight(&ss, &ts, "x = 1", "PYTHON", &theme).ok().unwrap();
    assert_eq!(joined(&h.lines), vec!["x = 1"]);
    assert!(highlight(&ss, &ts, "x = 1", "PY", &theme).is_ok());
}

#[test]
fn empty_rgba_image_does_not_encode_as_png() {
    let img = DynamicImage::ImageRgba8(RgbaImage::new(0, 0));
    assert_eq!(encode_png(&img).err(), Some(RenderError::EncodingError));
    let raw = encode_rgba8(&img).ok().unwrap();
    assert_eq!((raw.width, raw.height, raw.bytes.len()), (0, 0, 0));
}

#[test]
fn non_rgba_image_has_no_png() {
    let img = DynamicImage::ImageRgb8(RgbImage::from_pixel(2, 2, Rgb([1, 2, 3])));
    assert_eq!(encode_png(&img).err(), Some(RenderError::UnsupportedImageMode));
}
