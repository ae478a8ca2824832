//! Markers shown in front of each line of a text report.
use vstd::prelude::*;

verus! {

/// A marker that tells at a glance how a finding reads.
#[derive(Clone, Copy, Debug, PartialEq, Eq, Structural)]
pub enum Emoji {
    Arrow,
    Cross,
    Info,
    Tick,
    Warning,
}

impl Emoji {
    /// The symbol printed for the marker.
    pub fn symbol(&self) -> (r: &'static str)
        ensures
            r@ == self.spec_symbol(),
    {
        match self {
            Emoji::Arrow => "❯",
            Emoji::Cross => "✖",
            Emoji::Info => "🛈",
            Emoji::Tick => "✔",
            Emoji::Warning => "⚠️ ",
        }
    }

    pub open spec fn spec_symbol(&self) -> Seq<char> {
        match self {
            Emoji::Arrow => "❯"@,
            Emoji::Cross => "✖"@,
            Emoji::Info => "🛈"@,
            Emoji::Tick => "✔"@,
            Emoji::Warning => "⚠️ "@,
        }
    }
}

/// A tick for a setting that is on, a cross for one that is off.
pub open spec fn emoji_of(b: bool) -> Emoji {
    if b {
        Emoji::Tick
    } else {
        Emoji::Cross
    }
}

impl From<bool> for Emoji {
    fn from(item: bool) -> (r: Emoji)
        ensures
            r == emoji_of(item),
    {
        if item {
            Emoji::Tick
        } else {
            Emoji::Cross
        }
    }
}

impl vstd::std_specs::convert::FromSpecImpl<bool> for Emoji {
    open spec fn obeys_from_spec() -> bool {
        true
    }

    open spec fn from_spec(v: bool) -> Emoji {
        emoji_of(v)
    }
}

/// One line of a text report: its depth of indentation, its marker, whether
/// it is a heading, and its words.
#[derive(Clone, Debug, PartialEq, Eq)]
pub struct TextLine {
    pub indent: usize,
    pub emoji: Emoji,
    pub heading: bool,
    pub text: String,
}

/// The parts of a text line, its words as characters.
pub struct LineView {
    pub indent: nat,
    pub emoji: Emoji,
    pub heading: bool,
    pub text: Seq<char>,
}

impl View for TextLine {
    type V = LineView;

    open spec fn view(&self) -> LineView {
        LineView {
            indent: self.indent as nat,
            emoji: self.emoji,
            heading: self.heading,
            text: self.text@,
        }
    }
}

/// A line of the given depth, marker and words.
pub open spec fn line(indent: nat, emoji: Emoji, text: Seq<char>) -> LineView {
    LineView { indent, emoji, heading: false, text }
}

impl TextLine {
    /// A line that is no heading.
    pub fn new(indent: usize, emoji: Emoji, text: String) -> (r: TextLine)
        ensures
            r@ == line(indent as nat, emoji, text@),
    {
        TextLine { indent, emoji, heading: false, text }
    }
}

} // verus!
