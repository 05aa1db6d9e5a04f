//! Messages for the terminal, as text with tones.
//!
//! The library says what is printed and in which tone; putting the tones on a
//! terminal is left to the caller.
use vstd::prelude::*;
use vstd::string::*;

verus! {

/// The tone of a piece of text.
#[derive(Clone, Copy, Debug, PartialEq, Eq, Structural)]
pub enum Tone {
    /// As the terminal prints by default.
    Plain,
    /// Red.
    Red,
    /// Green.
    Green,
    /// Cyan.
    Cyan,
    /// Bright red.
    BrightRed,
    /// Bright green.
    BrightGreen,
    /// Bright yellow.
    BrightYellow,
    /// Bright cyan.
    BrightCyan,
}

/// A piece of a message.
#[derive(Clone, Debug, PartialEq)]
pub enum Piece {
    /// Text in a tone.
    Text(String, Tone),
    /// The end of a line.
    Break,
}

/// A piece of a message, as contracts speak of it.
pub enum Shown {
    /// Text in a tone.
    Text(Seq<char>, Tone),
    /// The end of a line.
    Break,
}

/// What a piece shows.
pub open spec fn shown(piece: Piece) -> Shown {
    match piece {
        Piece::Text(text, tone) => Shown::Text(text@, tone),
        Piece::Break => Shown::Break,
    }
}

/// A message: pieces of text and line ends, in the order in which they are
/// printed.
#[derive(Clone, Debug, PartialEq)]
pub struct Message {
    /// The pieces.
    pub pieces: Vec<Piece>,
}

impl View for Message {
    type V = Seq<Shown>;

    open spec fn view(&self) -> Seq<Shown> {
        Seq::new(self.pieces@.len(), |i: int| shown(self.pieces@[i]))
    }
}

impl Message {
    /// The empty message.
    pub fn new() -> (r: Message)
        ensures
            r@ == Seq::<Shown>::empty(),
    {
        let r = Message { pieces: Vec::new() };
        assert(r@ =~= Seq::<Shown>::empty());
        r
    }

    /// Adds text in a tone.
    pub fn toned(&mut self, text: &str, tone: Tone)
        ensures
            final(self)@ == old(self)@.push(Shown::Text(text@, tone)),
    {
        self.pieces.push(Piece::Text(String::from_str(text), tone));
        assert(self@ =~= old(self)@.push(Shown::Text(text@, tone)));
    }

    /// Adds text in the default tone.
    pub fn plain(&mut self, text: &str)
        ensures
            final(self)@ == old(self)@.push(Shown::Text(text@, Tone::Plain)),
    {
        self.toned(text, Tone::Plain);
    }

    /// Ends the line.
    pub fn end_line(&mut self)
        ensures
            final(self)@ == old(self)@.push(Shown::Break),
    {
        self.pieces.push(Piece::Break);
        assert(self@ =~= old(self)@.push(Shown::Break));
    }

    /// Adds the pieces of another message.
    pub fn extend(&mut self, other: Message)
        ensures
            final(self)@ == old(self)@ + other@,
    {
        let ghost added = other@;
        let mut other = other;
        self.pieces.append(&mut other.pieces);
        assert(self@ =~= old(self)@ + added);
    }
}

/// What can be printed as a message.
pub trait PrintableItem {
    /// The pieces of the message.
    spec fn text(&self) -> Seq<Shown>;

    /// The message.
    fn message(&self) -> (r: Message)
        ensures
            r@ == self.text(),
    ;
}

/// The tag that stands before a title.
#[derive(Clone, Copy, Debug, PartialEq, Eq, Structural)]
pub enum PrintableTag {
    /// The task was done.
    Done,
    /// Something went wrong, and the task was done all the same.
    Warning,
    /// Something went wrong, and the task was given up.
    Error,
}

impl PrintableItem for PrintableTag {
    open spec fn text(&self) -> Seq<Shown> {
        match self {
            PrintableTag::Done => seq![
                Shown::Text("done"@, Tone::BrightGreen),
                Shown::Text(":"@, Tone::Plain),
            ],
            PrintableTag::Warning => seq![
                Shown::Text("warning"@, Tone::BrightYellow),
                Shown::Text(":"@, Tone::Plain),
            ],
            PrintableTag::Error => seq![
                Shown::Text("error"@, Tone::BrightRed),
                Shown::Text(":"@, Tone::Plain),
            ],
        }
    }

    fn message(&self) -> (r: Message) {
        let mut r = Message::new();
        match self {
            PrintableTag::Done => r.toned("done", Tone::BrightGreen),
            PrintableTag::Warning => r.toned("warning", Tone::BrightYellow),
            PrintableTag::Error => r.toned("error", Tone::BrightRed),
        }
        r.plain(":");
        r
    }
}

/// What a title shows: the tag, a space, and the message if there is one; then
/// the line ends.
pub open spec fn title_text(tag: PrintableTag, message: Option<Seq<Shown>>) -> Seq<Shown> {
    let head = tag.text().push(Shown::Text(" "@, Tone::Plain));
    match message {
        Some(pieces) => (head + pieces).push(Shown::Break),
        None => head.push(Shown::Break),
    }
}

/// The maker of titles.
pub struct Printer;

impl Printer {
    /// A title line: a tag, and a message behind it if one is given.
    pub fn title<T: PrintableItem>(tag: PrintableTag, message: Option<T>) -> (r: Message)
        ensures
            r@ == title_text(
                tag,
                match message {
                    Some(item) => Some(item.text()),
                    None => None,
                },
            ),
    {
        let mut r = tag.message();
        r.plain(" ");
        match message {
            Some(item) => {
                r.extend(item.message());
            },
            None => {},
        }
        r.end_line();
        r
    }
}

impl PrintableItem for Message {
    open spec fn text(&self) -> Seq<Shown> {
        self@
    }

    fn message(&self) -> (r: Message) {
        let mut r = Message::new();
        let mut i: usize = 0;
        while i < self.pieces.len()
            invariant
                i <= self.pieces@.len(),
                r@ == self@.take(i as int),
            decreases self.pieces@.len() - i,
        {
            match &self.pieces[i] {
                Piece::Text(text, tone) => {
                    r.toned(text.as_str(), *tone);
                },
                Piece::Break => {
                    r.end_line();
                },
            }
            assert(self@.take(i + 1) =~= self@.take(i as int).push(self@[i as int]));
            i += 1;
        }
        assert(self@.take(i as int) =~= self@);
        r
    }
}

} // verus!
