//! Text for the terminal, with the colours in which its parts are shown.
use vstd::prelude::*;

verus! {

/// How a piece of text is shown.
#[derive(Debug, Clone, Copy, PartialEq, Eq, Structural)]
pub enum Style {
    Plain,
    Bold,
    Dimmed,
    Green,
    GreenBold,
    Red,
    Yellow,
    YellowBold,
    Cyan,
    CyanBold,
    BlueBold,
}

/// A piece of text in one style.
#[derive(Debug, PartialEq, Eq)]
pub struct Span {
    pub style: Style,
    pub text: String,
}

/// A line of text.
#[derive(Debug, PartialEq, Eq)]
pub struct Line {
    pub spans: Vec<Span>,
}

/// Lines of text.
#[derive(Debug, PartialEq, Eq)]
pub struct Report {
    pub lines: Vec<Line>,
}

impl Span {
    pub open spec fn view(&self) -> (Style, Seq<char>) {
        (self.style, self.text@)
    }
}

impl Line {
    pub open spec fn view(&self) -> Seq<(Style, Seq<char>)> {
        self.spans@.map_values(|s: Span| s@)
    }

    /// An empty line.
    pub fn new() -> (r: Self)
        ensures
            r@ == Seq::<(Style, Seq<char>)>::empty(),
    {
        let r = Line { spans: Vec::new() };
        assert(r@ =~= Seq::<(Style, Seq<char>)>::empty());
        r
    }

    /// The line with a piece of text behind it.
    pub fn with(self, style: Style, text: &str) -> (r: Self)
        ensures
            r@ == self@.push((style, text@)),
    {
        let mut spans = self.spans;
        spans.push(Span { style, text: String::from_str(text) });
        let r = Line { spans };
        assert(r@ =~= self@.push((style, text@)));
        r
    }

    /// The line with unstyled text behind it.
    pub fn plain(self, text: &str) -> (r: Self)
        ensures
            r@ == self@.push((Style::Plain, text@)),
    {
        self.with(Style::Plain, text)
    }
}

impl Report {
    pub open spec fn view(&self) -> Seq<Seq<(Style, Seq<char>)>> {
        self.lines@.map_values(|l: Line| l@)
    }

    /// No lines.
    pub fn new() -> (r: Self)
        ensures
            r@ == Seq::<Seq<(Style, Seq<char>)>>::empty(),
    {
        let r = Report { lines: Vec::new() };
        assert(r@ =~= Seq::<Seq<(Style, Seq<char>)>>::empty());
        r
    }

    /// Adds a line.
    pub fn push(&mut self, line: Line)
        ensures
            final(self)@ == old(self)@.push(line@),
    {
        self.lines.push(line);
        assert(self@ =~= old(self)@.push(line@));
    }

    /// Adds a line of unstyled text.
    pub fn text(&mut self, text: &str)
        ensures
            final(self)@ == old(self)@.push(text_line(text@)),
    {
        self.push(Line::new().plain(text));
    }

    /// Adds a line of text in one style.
    pub fn styled(&mut self, style: Style, text: &str)
        ensures
            final(self)@ == old(self)@.push(styled_line(style, text@)),
    {
        self.push(Line::new().with(style, text));
    }

    /// Adds an empty line.
    pub fn blank(&mut self)
        ensures
            final(self)@ == old(self)@.push(blank_line()),
    {
        self.push(Line::new());
    }

    /// Adds a line with unstyled text and then text in a style.
    pub fn field(&mut self, label: &str, style: Style, value: &str)
        ensures
            final(self)@ == old(self)@.push(field_line(label@, style, value@)),
    {
        let line = Line::new().plain(label).with(style, value);
        assert(line@ =~= field_line(label@, style, value@));
        self.push(line);
    }
}

/// A line of unstyled text.
pub open spec fn text_line(text: Seq<char>) -> Seq<(Style, Seq<char>)> {
    seq![(Style::Plain, text)]
}

/// A line of text in one style.
pub open spec fn styled_line(style: Style, text: Seq<char>) -> Seq<(Style, Seq<char>)> {
    seq![(style, text)]
}

/// An empty line.
pub open spec fn blank_line() -> Seq<(Style, Seq<char>)> {
    seq![]
}

/// A line with unstyled text and then text in a style.
pub open spec fn field_line(
    label: Seq<char>,
    style: Style,
    value: Seq<char>,
) -> Seq<(Style, Seq<char>)> {
    seq![(Style::Plain, label), (style, value)]
}

/// The first `n` pieces of text of a line, one behind the other.
pub open spec fn first_texts(line: Seq<(Style, Seq<char>)>, n: nat) -> Seq<char>
    decreases n,
{
    if n == 0 {
        Seq::empty()
    } else {
        first_texts(line, (n - 1) as nat) + line[n - 1].1
    }
}

/// What a line says, whatever its colours.
pub open spec fn line_text(line: Seq<(Style, Seq<char>)>) -> Seq<char> {
    first_texts(line, line.len())
}

/// Whether one of the lines says exactly `text`.
pub open spec fn shows(lines: Seq<Seq<(Style, Seq<char>)>>, text: Seq<char>) -> bool {
    exists|i: int| 0 <= i < lines.len() && #[trigger] line_text(lines[i]) == text
}

/// A line says its pieces of text, one behind the other and each once.
pub proof fn law_line_says_its_pieces(line: Seq<(Style, Seq<char>)>)
    ensures
        line.len() == 0 ==> line_text(line) == Seq::<char>::empty(),
        line.len() == 1 ==> line_text(line) == line[0].1,
        line.len() == 2 ==> line_text(line) == line[0].1 + line[1].1,
        line.len() == 3 ==> line_text(line) == line[0].1 + line[1].1 + line[2].1,
        line.len() == 4 ==> line_text(line) == line[0].1 + line[1].1 + line[2].1 + line[3].1,
        line.len() == 5 ==> line_text(line) == line[0].1 + line[1].1 + line[2].1 + line[3].1
            + line[4].1,
        line.len() == 6 ==> line_text(line) == line[0].1 + line[1].1 + line[2].1 + line[3].1
            + line[4].1 + line[5].1,
        line.len() == 7 ==> line_text(line) == line[0].1 + line[1].1 + line[2].1 + line[3].1
            + line[4].1 + line[5].1 + line[6].1,
{
    reveal_with_fuel(first_texts, 8);
    assert(Seq::<char>::empty() + line[0].1 =~= line[0].1);
}

pub(crate) proof fn lemma_shows(lines: Seq<Seq<(Style, Seq<char>)>>, i: int, text: Seq<char>)
    requires
        0 <= i < lines.len(),
        ({
            let line = lines[i];
            ||| line.len() == 1 && text == line[0].1
            ||| line.len() == 2 && text == line[0].1 + line[1].1
            ||| line.len() == 3 && text == line[0].1 + line[1].1 + line[2].1
            ||| line.len() == 4 && text == line[0].1 + line[1].1 + line[2].1 + line[3].1
            ||| line.len() == 5 && text == line[0].1 + line[1].1 + line[2].1 + line[3].1 + line[4].1
            ||| line.len() == 6 && text == line[0].1 + line[1].1 + line[2].1 + line[3].1 + line[4].1
                + line[5].1
            ||| line.len() == 7 && text == line[0].1 + line[1].1 + line[2].1 + line[3].1 + line[4].1
                + line[5].1 + line[6].1
        }),
    ensures
        shows(lines, text),
{
    law_line_says_its_pieces(lines[i]);
    assert(line_text(lines[i]) == text);
}

/// A line of one text says that text, and a line with a label says the label and then the value.
pub proof fn law_lines_say_what_they_are_given(style: Style, label: Seq<char>, value: Seq<char>)
    ensures
        line_text(text_line(value)) == value,
        line_text(styled_line(style, value)) == value,
        line_text(blank_line()) == Seq::<char>::empty(),
        line_text(field_line(label, style, value)) == label + value,
        text_line(value)[0].0 == Style::Plain,
        styled_line(style, value)[0].0 == style,
        field_line(label, style, value)[0].0 == Style::Plain,
        field_line(label, style, value)[1].0 == style,
{
    law_line_says_its_pieces(text_line(value));
    law_line_says_its_pieces(styled_line(style, value));
    law_line_says_its_pieces(blank_line());
    law_line_says_its_pieces(field_line(label, style, value));
}

/// Whether a piece of one of the lines is exactly `text`, in the style `style`.
pub open spec fn shows_in(
    lines: Seq<Seq<(Style, Seq<char>)>>,
    style: Style,
    text: Seq<char>,
) -> bool {
    exists|i: int, k: int|
        0 <= i < lines.len() && 0 <= k < lines[i].len() && #[trigger] lines[i][k] == (style, text)
}

pub(crate) proof fn lemma_shows_in(
    lines: Seq<Seq<(Style, Seq<char>)>>,
    i: int,
    k: int,
    style: Style,
    text: Seq<char>,
)
    requires
        0 <= i < lines.len(),
        0 <= k < lines[i].len(),
        lines[i][k] == (style, text),
    ensures
        shows_in(lines, style, text),
{
}

} // verus!
