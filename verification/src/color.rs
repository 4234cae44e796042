//! Colored terminal strings: a text together with optional foreground color,
//! background color and bold attribute, rendered by wrapping the text in the
//! matching ANSI escape sequences.
use vstd::prelude::*;
use vstd::string::StringExecFns;

verus! {

#[derive(Debug, Clone, Copy)]
pub enum ForgroundColor {
    Red,
    Green,
    Blue,
}

#[derive(Debug, Clone, Copy)]
pub enum BackgroundColor {
    Red,
    Green,
    Blue,
}

#[derive(Debug, Clone, Copy)]
pub enum Attribute {
    Bold,
}

/// The escape sequence that switches the terminal to foreground color `c`.
pub open spec fn fg_escape_seq(c: ForgroundColor) -> Seq<char> {
    match c {
        ForgroundColor::Red => "\x1b[31m"@,
        ForgroundColor::Green => "\x1b[32m"@,
        ForgroundColor::Blue => "\x1b[34m"@,
    }
}

/// The escape sequence that switches the terminal to background color `c`.
pub open spec fn bg_escape_seq(c: BackgroundColor) -> Seq<char> {
    match c {
        BackgroundColor::Red => "\x1b[41m"@,
        BackgroundColor::Green => "\x1b[42m"@,
        BackgroundColor::Blue => "\x1b[44m"@,
    }
}

/// The escape sequence that switches the terminal to attribute `a`.
pub open spec fn attr_escape_seq(a: Attribute) -> Seq<char> {
    match a {
        Attribute::Bold => "\x1b[1m"@,
    }
}

/// The escape sequence that resets all colors and attributes.
pub open spec fn reset_seq() -> Seq<char> {
    "\x1b[0m"@
}

pub open spec fn opt_fg_seq(fg: Option<ForgroundColor>) -> Seq<char> {
    match fg {
        Some(c) => fg_escape_seq(c),
        None => Seq::empty(),
    }
}

pub open spec fn opt_bg_seq(bg: Option<BackgroundColor>) -> Seq<char> {
    match bg {
        Some(c) => bg_escape_seq(c),
        None => Seq::empty(),
    }
}

pub open spec fn opt_attr_seq(attr: Option<Attribute>) -> Seq<char> {
    match attr {
        Some(a) => attr_escape_seq(a),
        None => Seq::empty(),
    }
}

/// What a colored string renders to: the text alone when nothing is set,
/// else the escape sequences, the text, and a reset.
pub open spec fn rendered(
    fg: Option<ForgroundColor>,
    bg: Option<BackgroundColor>,
    attr: Option<Attribute>,
    text: Seq<char>,
) -> Seq<char> {
    if fg is None && bg is None && attr is None {
        text
    } else {
        opt_fg_seq(fg) + opt_bg_seq(bg) + opt_attr_seq(attr) + text + reset_seq()
    }
}

pub fn fg_escape(c: ForgroundColor) -> (r: &'static str)
    ensures
        r@ == fg_escape_seq(c),
{
    match c {
        ForgroundColor::Red => "\x1b[31m",
        ForgroundColor::Green => "\x1b[32m",
        ForgroundColor::Blue => "\x1b[34m",
    }
}

pub fn bg_escape(c: BackgroundColor) -> (r: &'static str)
    ensures
        r@ == bg_escape_seq(c),
{
    match c {
        BackgroundColor::Red => "\x1b[41m",
        BackgroundColor::Green => "\x1b[42m",
        BackgroundColor::Blue => "\x1b[44m",
    }
}

pub fn attr_escape(a: Attribute) -> (r: &'static str)
    ensures
        r@ == attr_escape_seq(a),
{
    match a {
        Attribute::Bold => "\x1b[1m",
    }
}

#[derive(Debug, Clone)]
pub struct ColoredString {
    pub fg: Option<ForgroundColor>,
    pub bg: Option<BackgroundColor>,
    pub text: String,
    pub attr: Option<Attribute>,
}

impl ColoredString {
    pub fn fg(self, fg: ForgroundColor) -> (r: Self)
        ensures
            r.fg == Some(fg),
            r.bg == self.bg,
            r.text == self.text,
            r.attr == self.attr,
    {
        let mut this = self;
        this.fg = Some(fg);
        this
    }

    pub fn bg(self, bg: BackgroundColor) -> (r: Self)
        ensures
            r.bg == Some(bg),
            r.fg == self.fg,
            r.text == self.text,
            r.attr == self.attr,
    {
        let mut this = self;
        this.bg = Some(bg);
        this
    }

    pub fn attr(self, attr: Attribute) -> (r: Self)
        ensures
            r.attr == Some(attr),
            r.fg == self.fg,
            r.bg == self.bg,
            r.text == self.text,
    {
        let mut this = self;
        this.attr = Some(attr);
        this
    }

    pub fn fg_red(self) -> (r: Self)
        ensures
            r.fg == Some(ForgroundColor::Red),
            r.bg == self.bg,
            r.text == self.text,
            r.attr == self.attr,
    {
        let mut this = self;
        this.fg = Some(ForgroundColor::Red);
        this
    }

    pub fn fg_green(self) -> (r: Self)
        ensures
            r.fg == Some(ForgroundColor::Green),
            r.bg == self.bg,
            r.text == self.text,
            r.attr == self.attr,
    {
        let mut this = self;
        this.fg = Some(ForgroundColor::Green);
        this
    }

    pub fn fg_blue(self) -> (r: Self)
        ensures
            r.fg == Some(ForgroundColor::Blue),
            r.bg == self.bg,
            r.text == self.text,
            r.attr == self.attr,
    {
        let mut this = self;
        this.fg = Some(ForgroundColor::Blue);
        this
    }

    pub fn bold(self) -> (r: Self)
        ensures
            r.attr == Some(Attribute::Bold),
            r.fg == self.fg,
            r.bg == self.bg,
            r.text == self.text,
    {
        let mut this = self;
        this.attr = Some(Attribute::Bold);
        this
    }

    /// The text wrapped in the escape sequences that its settings call for.
    pub fn render(&self) -> (r: String)
        ensures
            r@ == rendered(self.fg, self.bg, self.attr, self.text@),
    {
        let mut out = String::new();
        let decorated: bool = self.fg.is_some() || self.bg.is_some() || self.attr.is_some();
        if let Some(c) = self.fg {
            out.append(fg_escape(c));
        }
        if let Some(c) = self.bg {
            out.append(bg_escape(c));
        }
        if let Some(a) = self.attr {
            out.append(attr_escape(a));
        }
        out.append(self.text.as_str());
        if decorated {
            out.append("\x1b[0m");
        }
        proof {
            assert(out@ =~= rendered(self.fg, self.bg, self.attr, self.text@));
        }
        out
    }
}

/// Color wrapping is purely a rendering concern: the rendered string is the
/// text itself with some escape prefix before it and some suffix after it,
/// the text unchanged in the middle.
pub proof fn lemma_rendered_wraps_text(
    fg: Option<ForgroundColor>,
    bg: Option<BackgroundColor>,
    attr: Option<Attribute>,
    text: Seq<char>,
)
    ensures
        exists|pre: Seq<char>, post: Seq<char>|
            rendered(fg, bg, attr, text) == #[trigger] (pre + text + post),
{
    if fg is None && bg is None && attr is None {
        let pre = Seq::<char>::empty();
        let post = Seq::<char>::empty();
        assert(rendered(fg, bg, attr, text) =~= pre + text + post);
    } else {
        let pre = opt_fg_seq(fg) + opt_bg_seq(bg) + opt_attr_seq(attr);
        let post = reset_seq();
        assert(rendered(fg, bg, attr, text) =~= pre + text + post);
    }
}

/// A value that can be lifted into a `ColoredString`, with no colors set yet.
pub trait TerminalColor {
    /// The plain text that the value stands for.
    spec fn plain_text(&self) -> Seq<char>;

    fn color(&self) -> (r: ColoredString)
        ensures
            r.fg is None,
            r.bg is None,
            r.attr is None,
            r.text@ == self.plain_text(),
    ;
}

impl TerminalColor for String {
    open spec fn plain_text(&self) -> Seq<char> {
        self@
    }

    fn color(&self) -> (r: ColoredString) {
        ColoredString { fg: None, bg: None, text: self.clone(), attr: None }
    }
}

impl TerminalColor for str {
    open spec fn plain_text(&self) -> Seq<char> {
        self@
    }

    fn color(&self) -> (r: ColoredString) {
        ColoredString { fg: None, bg: None, text: self.to_owned(), attr: None }
    }
}

} // verus!
