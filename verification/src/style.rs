//! Terminal colours, switched on and off by the caller. The codes of the
//! colours come from `colored`; whether they are written is decided by
//! the configuration alone.
use vstd::prelude::*;

verus! {

/// The colours that the renderers use.
#[derive(Debug, Clone, Copy, PartialEq, Eq, Structural)]
pub enum Color {
    Red,
    Green,
    Yellow,
    Blue,
    Magenta,
    Cyan,
    BrightWhite,
}

/// The styles that the renderers use: a colour for the text, or text and
/// ground exchanged.
#[derive(Debug, Clone, Copy, PartialEq, Eq, Structural)]
pub enum Style {
    Red,
    Green,
    Yellow,
    Blue,
    Magenta,
    Cyan,
    BrightWhite,
    Reversed,
}

/// The parameter of the escape sequence that sets a colour for the text.
pub open spec fn color_code(color: Color) -> Seq<char> {
    match color {
        Color::Red => "31"@,
        Color::Green => "32"@,
        Color::Yellow => "33"@,
        Color::Blue => "34"@,
        Color::Magenta => "35"@,
        Color::Cyan => "36"@,
        Color::BrightWhite => "97"@,
    }
}

/// The colour of a style, where it is one.
pub open spec fn style_color(style: Style) -> Option<Color> {
    match style {
        Style::Red => Some(Color::Red),
        Style::Green => Some(Color::Green),
        Style::Yellow => Some(Color::Yellow),
        Style::Blue => Some(Color::Blue),
        Style::Magenta => Some(Color::Magenta),
        Style::Cyan => Some(Color::Cyan),
        Style::BrightWhite => Some(Color::BrightWhite),
        Style::Reversed => None,
    }
}

/// The parameter of the escape sequence that switches the style on.
pub open spec fn style_code(style: Style) -> Seq<char> {
    match style_color(style) {
        Some(color) => color_code(color),
        None => "7"@,
    }
}

/// `text` in `style`: between the escape sequence that switches the style
/// on and the one that resets it. With `enabled` off it is `text` itself.
pub open spec fn painted(text: Seq<char>, style: Style, enabled: bool) -> Seq<char> {
    if enabled {
        "\u{1b}["@ + style_code(style) + "m"@ + text + "\u{1b}[0m"@
    } else {
        text
    }
}

/// `colored::Color::to_fg_str` of the colour in `colored` that has the
/// same name: the two digits that the crate's table gives it.
#[verifier::external_body]
fn foreground_code(color: Color) -> (code: String)
    ensures
        code@ == color_code(color),
{
    let named = match color {
        Color::Red => colored::Color::Red,
        Color::Green => colored::Color::Green,
        Color::Yellow => colored::Color::Yellow,
        Color::Blue => colored::Color::Blue,
        Color::Magenta => colored::Color::Magenta,
        Color::Cyan => colored::Color::Cyan,
        Color::BrightWhite => colored::Color::BrightWhite,
    };
    named.to_fg_str().into_owned()
}

/// The colour of a style, where it is one.
pub fn color_of(style: Style) -> (color: Option<Color>)
    ensures
        color == style_color(style),
{
    match style {
        Style::Red => Some(Color::Red),
        Style::Green => Some(Color::Green),
        Style::Yellow => Some(Color::Yellow),
        Style::Blue => Some(Color::Blue),
        Style::Magenta => Some(Color::Magenta),
        Style::Cyan => Some(Color::Cyan),
        Style::BrightWhite => Some(Color::BrightWhite),
        Style::Reversed => None,
    }
}

/// Appends `text` in `style`.
pub fn push_painted(out: &mut String, text: &str, style: Style, enabled: bool)
    ensures
        final(out)@ == old(out)@ + painted(text@, style, enabled),
{
    if enabled {
        out.append("\u{1b}[");
        match color_of(style) {
            Some(color) => {
                let code = foreground_code(color);
                out.append(code.as_str());
            },
            None => {
                out.append("7");
            },
        }
        out.append("m");
        out.append(text);
        out.append("\u{1b}[0m");
        assert(out@ =~= old(out)@ + painted(text@, style, enabled));
    } else {
        out.append(text);
    }
}

} // verus!
