//! Turning code into styled spans, line by line, under a language and a theme.
use crate::error::RenderError;
use syntect::easy::HighlightLines;
use syntect::highlighting::{Style, Theme, ThemeSet};
use syntect::parsing::{SyntaxReference, SyntaxSet};
use vstd::prelude::*;

verus! {

#[verifier::external_type_specification]
#[verifier::external_body]
pub struct ExSyntaxSet(SyntaxSet);

#[verifier::external_type_specification]
#[verifier::external_body]
pub struct ExSyntaxReference(SyntaxReference);

#[verifier::external_type_specification]
#[verifier::external_body]
pub struct ExThemeSet(ThemeSet);

#[verifier::external_type_specification]
#[verifier::external_body]
pub struct ExTheme(Theme);

#[verifier::external_type_specification]
#[verifier::external_body]
pub struct ExStyle(Style);

#[verifier::external_type_specification]
#[verifier::external_body]
pub struct ExHighlightLines<'a>(HighlightLines<'a>);

#[verifier::external_type_specification]
#[verifier::external_body]
pub struct ExSyntectError(syntect::Error);

#[verifier::external_type_specification]
#[verifier::external_body]
pub struct ExLoadingError(syntect::LoadingError);

/// The names under which a theme set holds its themes.
pub uninterp spec fn theme_names(themes: ThemeSet) -> Set<Seq<char>>;

/// Where the theme of a request comes from.
pub enum ThemeSource {
    /// A name to look up in the theme registry.
    Named(String),
    /// A theme loaded beforehand, used as it is.
    Loaded(Theme),
}

/// Code split into styled spans, one sequence of spans per line, with the theme
/// that styled them.
pub struct Highlighted<'a> {
    pub lines: Vec<Vec<(Style, &'a str)>>,
    pub theme: &'a Theme,
}

/// The text that a sequence of spans covers, in order.
pub open spec fn span_text(spans: Seq<(Style, &str)>) -> Seq<char> {
    spans.map_values(|p: (Style, &str)| p.1@).flatten()
}

/// The texts of highlighted lines.
pub open spec fn line_texts(lines: Seq<Vec<(Style, &str)>>) -> Seq<Seq<char>> {
    lines.map_values(|l: Vec<(Style, &str)>| span_text(l@))
}

/// `lines` is `code` cut after each newline: the lines put together give the code,
/// none is empty, each but the last ends in a newline, and no line holds a newline
/// before its end.
pub open spec fn is_line_split(code: Seq<char>, lines: Seq<Seq<char>>) -> bool {
    &&& lines.flatten() == code
    &&& forall|i: int| 0 <= i < lines.len() ==> #[trigger] lines[i].len() > 0
    &&& forall|i: int| 0 <= i < lines.len() - 1 ==> #[trigger] lines[i].last() == '\n'
    &&& forall|i: int, j: int|
        0 <= i < lines.len() && 0 <= j < lines[i].len() - 1 ==> #[trigger] lines[i][j] != '\n'
}

/// The language keys that a syntax set resolves: each syntax's file extensions
/// and each syntax's name, in any ASCII case.
pub uninterp spec fn syntax_tokens(syntaxes: SyntaxSet) -> Set<Seq<char>>;

/// Whether a `.tmTheme` file with these bytes parses into a theme.
pub uninterp spec fn theme_file_parses(bytes: Seq<u8>) -> bool;

/// A syntax together with the set it was found in.
pub struct FoundSyntax<'a> {
    syntax: &'a SyntaxReference,
    syntaxes: &'a SyntaxSet,
}

/// A highlighter together with the syntax set that holds its syntax, which every
/// line it highlights is parsed against.
pub struct LineHighlighter<'a> {
    inner: HighlightLines<'a>,
    syntaxes: &'a SyntaxSet,
}

/// The theme is named, and the theme set holds no theme of that name.
pub open spec fn theme_missing(themes: ThemeSet, theme: ThemeSource) -> bool {
    match theme {
        ThemeSource::Named(n) => !theme_names(themes).contains(n@),
        ThemeSource::Loaded(_) => false,
    }
}

/// Relies on syntect's `SyntaxSet::find_syntax_by_token`: the syntax with a file
/// extension equal to the token, else one with a name equal to it, both compared
/// ignoring ASCII case; `None` when the set has neither.
#[verifier::external_body]
fn find_syntax<'a>(syntaxes: &'a SyntaxSet, token: &str) -> (r: Option<FoundSyntax<'a>>)
    ensures
        r is Some == syntax_tokens(*syntaxes).contains(token@),
{
    match syntaxes.find_syntax_by_token(token) {
        Some(syntax) => Some(FoundSyntax { syntax, syntaxes }),
        None => None,
    }
}

/// Relies on the `themes` map of syntect's `ThemeSet` (`BTreeMap::get`): the theme
/// stored under exactly this name.
#[verifier::external_body]
fn find_theme<'a>(themes: &'a ThemeSet, name: &str) -> (r: Option<&'a Theme>)
    ensures
        r.is_some() == theme_names(*themes).contains(name@),
{
    themes.themes.get(name)
}

/// Relies on syntect's `LinesWithEndings`: the code cut after each `'\n'`, the
/// newline kept at the end of its line.
#[verifier::external_body]
fn lines_with_endings(code: &str) -> (r: Vec<&str>)
    ensures
        is_line_split(code@, r@.map_values(|l: &str| l@)),
{
    syntect::util::LinesWithEndings::from(code).collect()
}

/// Relies on syntect's `HighlightLines::new`: a highlighter for one syntax and theme,
/// at the start of a file, kept with the set that holds the syntax.
#[verifier::external_body]
fn new_highlighter<'a>(found: &FoundSyntax<'a>, theme: &'a Theme) -> (r: LineHighlighter<'a>) {
    LineHighlighter { inner: HighlightLines::new(found.syntax, theme), syntaxes: found.syntaxes }
}

/// Relies on syntect's `HighlightLines::highlight_line`, given the set that holds
/// the highlighter's syntax: the line as styled spans, whose texts put together
/// make the line.
#[verifier::external_body]
fn highlight_line<'b>(h: &mut LineHighlighter, line: &'b str) -> (r: Result<
    Vec<(Style, &'b str)>,
    syntect::Error,
>)
    ensures
        r matches Ok(spans) ==> span_text(spans@) == line@,
{
    h.inner.highlight_line(line, h.syntaxes)
}

/// Decides the outcome of the two registry lookups: an unknown language is
/// reported first, then an unknown theme.
pub fn select_sources<A, B>(syntax: Option<A>, theme: Option<B>) -> (r: Result<(A, B), RenderError>)
    ensures
        syntax is None ==> r == Err::<(A, B), RenderError>(RenderError::UnknownLanguage),
        syntax is Some && theme is None ==> r == Err::<(A, B), RenderError>(
            RenderError::UnknownTheme,
        ),
        syntax is Some && theme is Some ==> r == Ok::<(A, B), RenderError>(
            (syntax->0, theme->0),
        ),
{
    match syntax {
        None => Err(RenderError::UnknownLanguage),
        Some(s) => match theme {
            None => Err(RenderError::UnknownTheme),
            Some(t) => Ok((s, t)),
        },
    }
}

/// Highlights each line in turn with one highlighter, so that state carries from
/// a line to the next. Each line's spans cover exactly that line; no lines give
/// no spans and no error.
pub fn highlight_lines<'b>(h: &mut LineHighlighter, lines: &Vec<&'b str>) -> (r: Result<
    Vec<Vec<(Style, &'b str)>>,
    RenderError,
>)
    ensures
        match r {
            Ok(out) => line_texts(out@) == lines@.map_values(|l: &str| l@),
            Err(e) => e == RenderError::HighlightFailed && lines@.len() > 0,
        },
{
    let mut out: Vec<Vec<(Style, &'b str)>> = Vec::new();
    let mut k: usize = 0;
    while k < lines.len()
        invariant
            k <= lines.len(),
            out@.len() == k,
            forall|i: int| 0 <= i < k ==> span_text(#[trigger] out@[i]@) == lines@[i]@,
        decreases lines.len() - k,
    {
        match highlight_line(h, lines[k]) {
            Ok(spans) => out.push(spans),
            Err(_) => return Err(RenderError::HighlightFailed),
        }
        k = k + 1;
    }
    assert(line_texts(out@) =~= lines@.map_values(|l: &str| l@));
    Ok(out)
}

/// Resolves the language and the theme of a request and highlights the code.
///
/// Both lookups come before any highlighting. A loaded theme is used as it is; a
/// named one is looked up by its exact name; the language key is matched as the
/// syntax set does, against extensions and names ignoring ASCII case. An unknown language is reported
/// before an unknown theme. Once both are found, the only possible failure is the
/// highlighting engine's, and empty code never fails. On success the highlighted
/// lines are the code cut after each newline, and their spans give back the code
/// exactly.
pub fn highlight<'a>(
    syntaxes: &'a SyntaxSet,
    themes: &'a ThemeSet,
    code: &'a str,
    lang: &str,
    theme: &'a ThemeSource,
) -> (r: Result<Highlighted<'a>, RenderError>)
    ensures
        match r {
            Ok(hl) => is_line_split(code@, line_texts(hl.lines@)),
            Err(e) => e == RenderError::UnknownLanguage || e == RenderError::UnknownTheme
                || e == RenderError::HighlightFailed,
        },
        (r == Err::<Highlighted<'a>, RenderError>(RenderError::UnknownLanguage)) <==> !syntax_tokens(
            *syntaxes,
        ).contains(lang@),
        (r == Err::<Highlighted<'a>, RenderError>(RenderError::UnknownTheme)) <==> (syntax_tokens(
            *syntaxes,
        ).contains(lang@) && theme_missing(*themes, *theme)),
        (code@.len() == 0 && syntax_tokens(*syntaxes).contains(lang@) && !theme_missing(
            *themes,
            *theme,
        )) ==> r is Ok,
{
    let syntax = find_syntax(syntaxes, lang);
    let found = match theme {
        ThemeSource::Named(name) => find_theme(themes, name.as_str()),
        ThemeSource::Loaded(t) => Some(t),
    };
    let (syntax, theme) = match select_sources(syntax, found) {
        Ok(pair) => pair,
        Err(e) => return Err(e),
    };
    let lines = lines_with_endings(code);
    proof {
        let ls = lines@.map_values(|l: &str| l@);
        if ls.len() > 0 {
            assert(ls.flatten() == ls.first() + ls.drop_first().flatten());
            assert(ls[0].len() > 0);
        }
    }
    let mut h = new_highlighter(&syntax, theme);
    match highlight_lines(&mut h, &lines) {
        Ok(out) => Ok(Highlighted { lines: out, theme }),
        Err(e) => Err(e),
    }
}

/// Relies on syntect's `ThemeSet::load_from_reader`: parses a theme from the
/// bytes of a `.tmTheme` file.
#[verifier::external_body]
fn parse_theme(bytes: &[u8]) -> (r: Result<Theme, syntect::LoadingError>)
    ensures
        r is Ok == theme_file_parses(bytes@),
{
    ThemeSet::load_from_reader(&mut std::io::Cursor::new(bytes))
}

/// Loads a theme from the bytes of a theme file, to be used in later requests
/// in place of a theme name. Bytes that do not parse give `InvalidThemeAsset`.
pub fn load_theme(bytes: &[u8]) -> (r: Result<ThemeSource, RenderError>)
    ensures
        r is Ok <==> theme_file_parses(bytes@),
        match r {
            Ok(source) => source is Loaded,
            Err(e) => e == RenderError::InvalidThemeAsset,
        },
{
    match parse_theme(bytes) {
        Ok(theme) => Ok(ThemeSource::Loaded(theme)),
        Err(_) => Err(RenderError::InvalidThemeAsset),
    }
}

} // verus!
