//! What a surface shows: lines of styled pieces of text. A piece is a literal or a
//! message key with its arguments; the program around the library looks keys up.

use vstd::prelude::*;

verus! {

/// The colour roles of the theme.
#[derive(Debug, Clone, Copy, PartialEq, Eq, Structural)]
pub enum Color {
    Plain,
    Primary,
    Muted,
    Dim,
    Title,
    BorderDefault,
    BorderActive,
    BorderDim,
    Success,
    Warning,
    Error,
    Accent,
    Surface,
    PopupAction,
    PopupSelected,
    PopupBorder,
}

/// What stands behind the text.
#[derive(Debug, Clone, Copy, PartialEq, Eq, Structural)]
pub enum Back {
    Plain,
    Selection,
    Title,
    Action,
    Accent,
}

/// A colour role, the background and the modifiers of a piece of text.
#[derive(Debug, Clone, Copy, PartialEq, Eq, Structural)]
pub struct Style {
    pub color: Color,
    pub back: Back,
    pub bold: bool,
    pub italic: bool,
}

/// A colour, and nothing else.
pub open spec fn fg(color: Color) -> Style {
    Style { color, back: Back::Plain, bold: false, italic: false }
}

/// A colour in bold.
pub open spec fn bold(color: Color) -> Style {
    Style { color, back: Back::Plain, bold: true, italic: false }
}

/// A colour in italics.
pub open spec fn italic(color: Color) -> Style {
    Style { color, back: Back::Plain, bold: false, italic: true }
}

/// A colour in bold on a background.
pub open spec fn on(color: Color, back: Back) -> Style {
    Style { color, back, bold: true, italic: false }
}

impl Style {
    pub fn fg(color: Color) -> (s: Style)
        ensures
            s == fg(color),
    {
        Style { color, back: Back::Plain, bold: false, italic: false }
    }

    pub fn bold(color: Color) -> (s: Style)
        ensures
            s == bold(color),
    {
        Style { color, back: Back::Plain, bold: true, italic: false }
    }

    pub fn italic(color: Color) -> (s: Style)
        ensures
            s == italic(color),
    {
        Style { color, back: Back::Plain, bold: false, italic: true }
    }

    pub fn on(color: Color, back: Back) -> (s: Style)
        ensures
            s == on(color, back),
    {
        Style { color, back, bold: true, italic: false }
    }
}

/// An argument of a message.
#[derive(Debug)]
pub enum ArgValue {
    Number(u64),
    Text(String),
    /// The text of another message.
    Message(String),
}

/// A named argument of a message.
#[derive(Debug)]
pub struct Arg {
    pub name: &'static str,
    pub value: ArgValue,
}

/// The words of a piece.
#[derive(Debug)]
pub enum Words {
    Literal(String),
    Message { key: String, args: Vec<Arg> },
}

/// Words in a style.
#[derive(Debug)]
pub struct Piece {
    pub words: Words,
    pub style: Style,
}

/// A line of pieces, one behind the other.
#[derive(Debug)]
pub struct Line {
    pub pieces: Vec<Piece>,
}

/// Lines, one below the other.
#[derive(Debug)]
pub struct Doc {
    pub lines: Vec<Line>,
}

/// An argument, abstractly.
pub enum ArgV {
    Number(nat),
    Text(Seq<char>),
    Message(Seq<char>),
}

/// The words of a piece, abstractly.
pub enum WordsV {
    Literal(Seq<char>),
    Message(Seq<char>, Seq<(Seq<char>, ArgV)>),
}

/// A piece, abstractly.
pub struct PieceV {
    pub words: WordsV,
    pub style: Style,
}

pub open spec fn arg_view(a: Arg) -> (Seq<char>, ArgV) {
    (
        a.name@,
        match a.value {
            ArgValue::Number(n) => ArgV::Number(n as nat),
            ArgValue::Text(t) => ArgV::Text(t@),
            ArgValue::Message(k) => ArgV::Message(k@),
        },
    )
}

pub open spec fn words_view(w: Words) -> WordsV {
    match w {
        Words::Literal(s) => WordsV::Literal(s@),
        Words::Message { key, args } => WordsV::Message(
            key@,
            args@.map_values(|a: Arg| arg_view(a)),
        ),
    }
}

impl View for Piece {
    type V = PieceV;

    open spec fn view(&self) -> PieceV {
        PieceV { words: words_view(self.words), style: self.style }
    }
}

impl View for Line {
    type V = Seq<PieceV>;

    open spec fn view(&self) -> Seq<PieceV> {
        self.pieces@.map_values(|p: Piece| p@)
    }
}

impl View for Doc {
    type V = Seq<Seq<PieceV>>;

    open spec fn view(&self) -> Seq<Seq<PieceV>> {
        self.lines@.map_values(|l: Line| l@)
    }
}

/// Literal text in a style.
pub open spec fn lit(s: Seq<char>, style: Style) -> PieceV {
    PieceV { words: WordsV::Literal(s), style }
}

/// A message without arguments, in a style.
pub open spec fn msg(key: Seq<char>, style: Style) -> PieceV {
    PieceV { words: WordsV::Message(key, Seq::empty()), style }
}

/// A message with one number, in a style.
pub open spec fn msg_num(key: Seq<char>, name: Seq<char>, n: nat, style: Style) -> PieceV {
    PieceV { words: WordsV::Message(key, seq![(name, ArgV::Number(n))]), style }
}

/// A message with one text, in a style.
pub open spec fn msg_text(key: Seq<char>, name: Seq<char>, t: Seq<char>, style: Style) -> PieceV {
    PieceV { words: WordsV::Message(key, seq![(name, ArgV::Text(t))]), style }
}

/// A line without pieces.
pub open spec fn blank() -> Seq<PieceV> {
    Seq::empty()
}

/// The words of a message.
pub open spec fn message(key: Seq<char>, args: Seq<(Seq<char>, ArgV)>) -> WordsV {
    WordsV::Message(key, args)
}

/// The text of a message with several values in it.
pub open spec fn msg_with(key: Seq<char>, args: Seq<(Seq<char>, ArgV)>, style: Style) -> PieceV {
    PieceV { words: WordsV::Message(key, args), style }
}

impl Arg {
    /// A number in a message.
    pub fn number(name: &'static str, n: u64) -> (a: Arg)
        ensures
            arg_view(a) == (name@, ArgV::Number(n as nat)),
    {
        Arg { name, value: ArgValue::Number(n) }
    }

    /// A text in a message.
    pub fn text(name: &'static str, t: &str) -> (a: Arg)
        ensures
            arg_view(a) == (name@, ArgV::Text(t@)),
    {
        Arg { name, value: ArgValue::Text(t.to_owned()) }
    }

    /// A message in a message.
    pub fn message(name: &'static str, key: &str) -> (a: Arg)
        ensures
            arg_view(a) == (name@, ArgV::Message(key@)),
    {
        Arg { name, value: ArgValue::Message(key.to_owned()) }
    }
}

impl Arg {
    /// The same value under the same name.
    pub fn copy(&self) -> (a: Arg)
        ensures
            arg_view(a) == arg_view(*self),
    {
        let value = match &self.value {
            ArgValue::Number(n) => ArgValue::Number(*n),
            ArgValue::Text(t) => ArgValue::Text(t.clone()),
            ArgValue::Message(k) => ArgValue::Message(k.clone()),
        };
        Arg { name: self.name, value }
    }
}

impl Words {
    /// The same words.
    pub fn copy(&self) -> (w: Words)
        ensures
            words_view(w) == words_view(*self),
    {
        match self {
            Words::Literal(s) => Words::Literal(s.clone()),
            Words::Message { key, args } => {
                let mut out: Vec<Arg> = Vec::new();
                let mut i: usize = 0;
                while i < args.len()
                    invariant
                        i <= args@.len(),
                        out@.len() == i,
                        forall|j: int|
                            0 <= j < i ==> arg_view(#[trigger] out@[j]) == arg_view(args@[j]),
                    decreases args@.len() - i,
                {
                    out.push(args[i].copy());
                    i = i + 1;
                }
                assert(out@.map_values(|a: Arg| arg_view(a)) =~= args@.map_values(
                    |a: Arg| arg_view(a),
                ));
                Words::Message { key: key.clone(), args: out }
            },
        }
    }
}

impl Piece {
    /// The text of a message with a value in it.
    pub fn msg1(key: &str, a: Arg, style: Style) -> (p: Piece)
        ensures
            p@ == msg_with(key@, seq![arg_view(a)], style),
    {
        let mut args: Vec<Arg> = Vec::new();
        args.push(a);
        assert(args@.map_values(|x: Arg| arg_view(x)) =~= seq![arg_view(a)]);
        Piece { words: Words::Message { key: key.to_owned(), args }, style }
    }

    /// The text of a message with three values in it.
    pub fn msg3(key: &str, a: Arg, b: Arg, c: Arg, style: Style) -> (p: Piece)
        ensures
            p@ == msg_with(key@, seq![arg_view(a), arg_view(b), arg_view(c)], style),
    {
        let mut args: Vec<Arg> = Vec::new();
        args.push(a);
        args.push(b);
        args.push(c);
        assert(args@.map_values(|x: Arg| arg_view(x)) =~= seq![
            arg_view(a),
            arg_view(b),
            arg_view(c),
        ]);
        Piece { words: Words::Message { key: key.to_owned(), args }, style }
    }

    /// The text of a message with two values in it.
    pub fn msg2(key: &str, a: Arg, b: Arg, style: Style) -> (p: Piece)
        ensures
            p@ == msg_with(key@, seq![arg_view(a), arg_view(b)], style),
    {
        let mut args: Vec<Arg> = Vec::new();
        args.push(a);
        args.push(b);
        assert(args@.map_values(|x: Arg| arg_view(x)) =~= seq![arg_view(a), arg_view(b)]);
        Piece { words: Words::Message { key: key.to_owned(), args }, style }
    }

    pub fn lit(s: &str, style: Style) -> (p: Piece)
        ensures
            p@ == lit(s@, style),
    {
        Piece { words: Words::Literal(s.to_owned()), style }
    }

    pub fn text(s: String, style: Style) -> (p: Piece)
        ensures
            p@ == lit(s@, style),
    {
        Piece { words: Words::Literal(s), style }
    }

    pub fn msg(key: &str, style: Style) -> (p: Piece)
        ensures
            p@ == msg(key@, style),
    {
        let args: Vec<Arg> = Vec::new();
        assert(args@.map_values(|a: Arg| arg_view(a)) =~= Seq::empty());
        Piece { words: Words::Message { key: key.to_owned(), args }, style }
    }

    pub fn msg_num(key: &str, name: &'static str, n: u64, style: Style) -> (p: Piece)
        ensures
            p@ == msg_num(key@, name@, n as nat, style),
    {
        let mut args: Vec<Arg> = Vec::new();
        args.push(Arg { name, value: ArgValue::Number(n) });
        assert(args@.map_values(|a: Arg| arg_view(a)) =~= seq![(name@, ArgV::Number(n as nat))]);
        Piece { words: Words::Message { key: key.to_owned(), args }, style }
    }

    pub fn msg_text(key: &str, name: &'static str, t: &str, style: Style) -> (p: Piece)
        ensures
            p@ == msg_text(key@, name@, t@, style),
    {
        let mut args: Vec<Arg> = Vec::new();
        args.push(Arg { name, value: ArgValue::Text(t.to_owned()) });
        assert(args@.map_values(|a: Arg| arg_view(a)) =~= seq![(name@, ArgV::Text(t@))]);
        Piece { words: Words::Message { key: key.to_owned(), args }, style }
    }
}

impl Line {
    pub fn new() -> (l: Line)
        ensures
            l@ == blank(),
    {
        let l = Line { pieces: Vec::new() };
        assert(l@ =~= blank());
        l
    }

    pub fn push(&mut self, p: Piece)
        ensures
            final(self)@ == old(self)@.push(p@),
    {
        let ghost before = self@;
        self.pieces.push(p);
        assert(self@ =~= before.push(p@));
    }

    /// Adds the pieces of another line.
    pub fn extend(&mut self, other: Line)
        ensures
            final(self)@ == old(self)@ + other@,
    {
        let ghost before = self@;
        let mut pieces = other.pieces;
        self.pieces.append(&mut pieces);
        assert(self@ =~= before + other@);
    }

    pub fn of(p: Piece) -> (l: Line)
        ensures
            l@ == seq![p@],
    {
        let mut l = Line::new();
        l.push(p);
        assert(l@ =~= seq![p@]);
        l
    }

    pub fn of2(p: Piece, q: Piece) -> (l: Line)
        ensures
            l@ == seq![p@, q@],
    {
        let mut l = Line::new();
        l.push(p);
        l.push(q);
        assert(l@ =~= seq![p@, q@]);
        l
    }

    pub fn of3(p: Piece, q: Piece, r: Piece) -> (l: Line)
        ensures
            l@ == seq![p@, q@, r@],
    {
        let mut l = Line::new();
        l.push(p);
        l.push(q);
        l.push(r);
        assert(l@ =~= seq![p@, q@, r@]);
        l
    }
}

impl Doc {
    pub fn new() -> (d: Doc)
        ensures
            d@ == Seq::<Seq<PieceV>>::empty(),
    {
        let d = Doc { lines: Vec::new() };
        assert(d@ =~= Seq::<Seq<PieceV>>::empty());
        d
    }

    pub fn push(&mut self, l: Line)
        ensures
            final(self)@ == old(self)@.push(l@),
    {
        let ghost before = self@;
        self.lines.push(l);
        assert(self@ =~= before.push(l@));
    }

    /// Adds a line of one piece.
    pub fn line(&mut self, p: Piece)
        ensures
            final(self)@ == old(self)@.push(seq![p@]),
    {
        self.push(Line::of(p));
    }

    /// Adds the lines of another document.
    pub fn extend(&mut self, other: Doc)
        ensures
            final(self)@ == old(self)@ + other@,
    {
        let ghost before = self@;
        let mut lines = other.lines;
        self.lines.append(&mut lines);
        assert(self@ =~= before + other@);
    }

    /// Adds an empty line.
    pub fn blank(&mut self)
        ensures
            final(self)@ == old(self)@.push(blank()),
    {
        self.push(Line::new());
    }
}

} // verus!
