//! Styled rendering of output lines that carry SGR escape sequences.

use ansi_parser::{AnsiParser, AnsiSequence, Output};
use vstd::prelude::*;

verus! {

/// The eight basic terminal colors, in the order of their SGR offsets.
#[derive(Clone, Copy, Debug, PartialEq, Eq, Structural)]
pub enum Color {
    Black,
    Red,
    Green,
    Yellow,
    Blue,
    Magenta,
    Cyan,
    White,
}

/// The attributes that are active at one point of a line.
#[derive(Clone, Copy, Debug, PartialEq, Eq, Structural)]
pub struct Style {
    pub foreground: Option<Color>,
    pub bold: bool,
    pub background: Option<Color>,
}

/// The color that stands at `offset` in the SGR color table, for offsets 0 to 7.
pub open spec fn color_at(offset: int) -> Color {
    if offset == 0 {
        Color::Black
    } else if offset == 1 {
        Color::Red
    } else if offset == 2 {
        Color::Green
    } else if offset == 3 {
        Color::Yellow
    } else if offset == 4 {
        Color::Blue
    } else if offset == 5 {
        Color::Magenta
    } else if offset == 6 {
        Color::Cyan
    } else {
        Color::White
    }
}

/// The style with no attribute set.
pub open spec fn plain_style() -> Style {
    Style { foreground: None, bold: false, background: None }
}

/// The effect of one SGR code on a style: 0 resets, 1 sets bold, 30 to 37 set
/// the foreground, 40 to 47 the background, and any other code changes nothing.
pub open spec fn apply_code(style: Style, code: u8) -> Style {
    if code == 0 {
        plain_style()
    } else if code == 1 {
        Style { bold: true, ..style }
    } else if 30 <= code <= 37 {
        Style { foreground: Some(color_at(code - 30)), ..style }
    } else if 40 <= code <= 47 {
        Style { background: Some(color_at(code - 40)), ..style }
    } else {
        style
    }
}

impl Color {
    /// The color of an SGR offset, if the offset names one.
    pub fn from_offset(offset: u8) -> (color: Option<Color>)
        ensures
            color == if offset <= 7 { Some(color_at(offset as int)) } else { None },
    {
        match offset {
            0 => Some(Color::Black),
            1 => Some(Color::Red),
            2 => Some(Color::Green),
            3 => Some(Color::Yellow),
            4 => Some(Color::Blue),
            5 => Some(Color::Magenta),
            6 => Some(Color::Cyan),
            7 => Some(Color::White),
            _ => None,
        }
    }
}

/// The effect of a sequence of SGR codes, applied from left to right.
pub open spec fn apply_codes(style: Style, codes: Seq<u8>) -> Style
    decreases codes.len(),
{
    if codes.len() == 0 {
        style
    } else {
        apply_code(apply_codes(style, codes.drop_last()), codes.last())
    }
}

/// One piece of a line: visible text, a set-graphics sequence with its codes,
/// or any other control sequence.
pub enum Token {
    Text(String),
    Graphics(Vec<u8>),
    Control,
}

/// The mathematical value of a [`Token`].
pub ghost enum TokenModel {
    Text(Seq<char>),
    Graphics(Seq<u8>),
    Control,
}

impl View for Token {
    type V = TokenModel;

    open spec fn view(&self) -> TokenModel {
        match self {
            Token::Text(text) => TokenModel::Text(text@),
            Token::Graphics(codes) => TokenModel::Graphics(codes@),
            Token::Control => TokenModel::Control,
        }
    }
}

/// A run of text with the attributes it is shown in.
#[derive(Debug)]
pub struct StyledSpan {
    pub text: String,
    pub foreground: Option<Color>,
    pub bold: bool,
    pub background: Option<Color>,
}

/// The mathematical value of a [`StyledSpan`].
pub ghost struct SpanModel {
    pub text: Seq<char>,
    pub foreground: Option<Color>,
    pub bold: bool,
    pub background: Option<Color>,
}

impl View for StyledSpan {
    type V = SpanModel;

    open spec fn view(&self) -> SpanModel {
        SpanModel {
            text: self.text@,
            foreground: self.foreground,
            bold: self.bold,
            background: self.background,
        }
    }
}

/// The tokens of a sequence, each by its value.
pub open spec fn token_models(tokens: Seq<Token>) -> Seq<TokenModel> {
    tokens.map_values(|t: Token| t@)
}

/// The spans of a sequence, each by its value.
pub open spec fn span_models(spans: Seq<StyledSpan>) -> Seq<SpanModel> {
    spans.map_values(|s: StyledSpan| s@)
}

/// The span that shows `text` in `style`.
pub open spec fn span_of(text: Seq<char>, style: Style) -> SpanModel {
    SpanModel {
        text,
        foreground: style.foreground,
        bold: style.bold,
        background: style.background,
    }
}

/// The style in force after all of `tokens`, starting from the plain style.
pub open spec fn style_after(tokens: Seq<TokenModel>) -> Style
    decreases tokens.len(),
{
    if tokens.len() == 0 {
        plain_style()
    } else {
        let before = style_after(tokens.drop_last());
        match tokens.last() {
            TokenModel::Graphics(codes) => apply_codes(before, codes),
            _ => before,
        }
    }
}

/// The spans of a token sequence: one span for each text token, in order,
/// styled by the graphics codes that stand before it.
pub open spec fn rendered(tokens: Seq<TokenModel>) -> Seq<SpanModel>
    decreases tokens.len(),
{
    if tokens.len() == 0 {
        Seq::empty()
    } else {
        let before = rendered(tokens.drop_last());
        match tokens.last() {
            TokenModel::Text(text) => before.push(span_of(text, style_after(tokens.drop_last()))),
            _ => before,
        }
    }
}

/// The visible characters of a token sequence: its text tokens, concatenated.
pub open spec fn visible_text(tokens: Seq<TokenModel>) -> Seq<char>
    decreases tokens.len(),
{
    if tokens.len() == 0 {
        Seq::empty()
    } else {
        let before = visible_text(tokens.drop_last());
        match tokens.last() {
            TokenModel::Text(text) => before + text,
            _ => before,
        }
    }
}

/// The characters of a span sequence, concatenated.
pub open spec fn spans_text(spans: Seq<SpanModel>) -> Seq<char>
    decreases spans.len(),
{
    if spans.len() == 0 {
        Seq::empty()
    } else {
        spans_text(spans.drop_last()) + spans.last().text
    }
}

/// Rendering neither adds nor drops a visible character: the text of the spans,
/// concatenated, is the text of the tokens, concatenated.
pub proof fn lemma_render_preserves_text(tokens: Seq<TokenModel>)
    ensures
        spans_text(rendered(tokens)) == visible_text(tokens),
    decreases tokens.len(),
{
    if tokens.len() > 0 {
        let front = tokens.drop_last();
        lemma_render_preserves_text(front);
        match tokens.last() {
            TokenModel::Text(text) => {
                let span = span_of(text, style_after(front));
                assert(rendered(tokens) == rendered(front).push(span));
                assert(rendered(front).push(span).drop_last() == rendered(front));
            },
            _ => {},
        }
    }
}

/// Rendering yields one span for each text token and none for the others.
pub proof fn lemma_render_one_span_per_text(tokens: Seq<TokenModel>)
    ensures
        rendered(tokens).len() == tokens.filter(|t: TokenModel| t is Text).len(),
    decreases tokens.len(),
{
    if tokens.len() > 0 {
        let front = tokens.drop_last();
        lemma_render_one_span_per_text(front);
        assert(tokens == front.push(tokens.last()));
        Seq::filter_distributes_over_add(front, seq![tokens.last()], |t: TokenModel| t is Text);
        reveal_with_fuel(Seq::filter, 2);
        assert(front.push(tokens.last()) == front + seq![tokens.last()]);
    } else {
        assert(tokens.filter(|t: TokenModel| t is Text).len() == 0) by {
            reveal(Seq::filter);
        }
    }
}

/// The character that every escape sequence starts with.
pub const ESCAPE: char = '\u{1b}';

/// A line of plain text renders to itself: to no span where it is empty, else
/// to one span in the plain style that holds the whole line.
pub proof fn lemma_plain_line(line: Seq<char>)
    ensures
        visible_text(plain_tokens(line)) == line,
        rendered(plain_tokens(line)) == if line.len() == 0 {
            Seq::<SpanModel>::empty()
        } else {
            seq![span_of(line, plain_style())]
        },
{
    let tokens = plain_tokens(line);
    if line.len() > 0 {
        let front = tokens.drop_last();
        assert(front.len() == 0);
        assert(rendered(front) == Seq::<SpanModel>::empty());
        assert(visible_text(front) == Seq::<char>::empty());
        assert(style_after(front) == plain_style());
        assert(tokens.last() == TokenModel::Text(line));
        assert(rendered(tokens) == Seq::<SpanModel>::empty().push(span_of(line, plain_style())));
        assert(visible_text(tokens) == Seq::<char>::empty() + line);
    }
}

/// What the escape-sequence parser makes of a line: its tokens, in order.
pub uninterp spec fn ansi_tokens(line: Seq<char>) -> Seq<TokenModel>;

/// The tokens of a line that holds no escape character: the line as one text,
/// or nothing where the line is empty.
pub open spec fn plain_tokens(line: Seq<char>) -> Seq<TokenModel> {
    if line.len() == 0 {
        Seq::empty()
    } else {
        seq![TokenModel::Text(line)]
    }
}

/// Splits a line into tokens with `ansi_parser::AnsiParser::ansi_parse`.
///
/// The contract claims that the tokens are a function of the line's
/// characters, since the parser reads nothing but its argument, and that a
/// line without an escape character comes back whole, since the parser looks
/// for that character before it takes anything for a sequence. A text block
/// becomes `Text`, a set-graphics sequence `Graphics` with its codes, and every
/// other recognised sequence `Control`.
#[verifier::external_body]
fn tokenize(line: &str) -> (tokens: Vec<Token>)
    ensures
        token_models(tokens@) == ansi_tokens(line@),
        !line@.contains(ESCAPE) ==> token_models(tokens@) == plain_tokens(line@),
{
    line.ansi_parse()
        .map(|piece| match piece {
            Output::TextBlock(text) => Token::Text(text.to_string()),
            Output::Escape(AnsiSequence::SetGraphicsMode(codes)) => Token::Graphics(codes.to_vec()),
            Output::Escape(_) => Token::Control,
        })
        .collect()
}

impl Style {
    /// The style with no attribute set.
    pub fn plain() -> (style: Style)
        ensures
            style == plain_style(),
    {
        Style { foreground: None, bold: false, background: None }
    }

    /// The style after one SGR code.
    pub fn apply(self, code: u8) -> (style: Style)
        ensures
            style == apply_code(self, code),
    {
        if code == 0 {
            Style::plain()
        } else if code == 1 {
            Style { foreground: self.foreground, bold: true, background: self.background }
        } else if 30 <= code && code <= 37 {
            Style {
                foreground: Color::from_offset(code - 30),
                bold: self.bold,
                background: self.background,
            }
        } else if 40 <= code && code <= 47 {
            Style {
                foreground: self.foreground,
                bold: self.bold,
                background: Color::from_offset(code - 40),
            }
        } else {
            self
        }
    }

    /// The style after a sequence of SGR codes, applied from left to right.
    pub fn apply_all(self, codes: &Vec<u8>) -> (style: Style)
        ensures
            style == apply_codes(self, codes@),
    {
        let mut style = self;
        let mut i: usize = 0;
        while i < codes.len()
            invariant
                i <= codes.len(),
                style == apply_codes(self, codes@.take(i as int)),
            decreases codes.len() - i,
        {
            proof {
                assert(codes@.take(i + 1).drop_last() == codes@.take(i as int));
            }
            style = style.apply(codes[i]);
            i += 1;
        }
        proof {
            assert(codes@.take(i as int) == codes@);
        }
        style
    }
}

/// Renders a token sequence: each text token becomes a span that carries the
/// style built up by the graphics codes before it. No style is carried in from
/// outside: the first token is met in the plain style.
pub fn render_tokens(tokens: &Vec<Token>) -> (spans: Vec<StyledSpan>)
    ensures
        span_models(spans@) == rendered(token_models(tokens@)),
        spans_text(span_models(spans@)) == visible_text(token_models(tokens@)),
{
    proof {
        lemma_render_preserves_text(token_models(tokens@));
    }
    let mut spans: Vec<StyledSpan> = Vec::new();
    let mut style = Style::plain();
    let mut i: usize = 0;
    let ghost models = token_models(tokens@);
    while i < tokens.len()
        invariant
            i <= tokens.len(),
            models == token_models(tokens@),
            style == style_after(models.take(i as int)),
            span_models(spans@) == rendered(models.take(i as int)),
        decreases tokens.len() - i,
    {
        proof {
            assert(models.take(i + 1).drop_last() == models.take(i as int));
            assert(models.take(i + 1).last() == tokens@[i as int]@);
        }
        let ghost before = spans@;
        match &tokens[i] {
            Token::Text(text) => {
                let span = StyledSpan {
                    text: text.clone(),
                    foreground: style.foreground,
                    bold: style.bold,
                    background: style.background,
                };
                spans.push(span);
                proof {
                    assert(span_models(spans@) == span_models(before).push(span@));
                }
            },
            Token::Graphics(codes) => {
                style = style.apply_all(codes);
            },
            Token::Control => {},
        }
        i += 1;
    }
    proof {
        assert(models.take(i as int) == models);
    }
    spans
}

/// Renders one line of output that may carry SGR escape sequences.
///
/// The line is split by the escape-sequence parser and the tokens are rendered
/// by [`render_tokens`]; each call starts from the plain style.
pub fn render_line(line: &str) -> (spans: Vec<StyledSpan>)
    ensures
        span_models(spans@) == rendered(ansi_tokens(line@)),
        spans_text(span_models(spans@)) == visible_text(ansi_tokens(line@)),
        !line@.contains(ESCAPE) ==> spans_text(span_models(spans@)) == line@,
        !line@.contains(ESCAPE) && line@.len() > 0 ==> span_models(spans@) == seq![
            span_of(line@, plain_style()),
        ],
{
    let tokens = tokenize(line);
    proof {
        if !line@.contains(ESCAPE) {
            lemma_plain_line(line@);
        }
    }
    render_tokens(&tokens)
}

} // verus!
