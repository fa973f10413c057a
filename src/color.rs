use vstd::prelude::*;

verus! {

/// An ANSI color.
#[derive(Copy, Clone, Debug, PartialEq, Eq, Structural)]
pub enum Color {
    Black,
    Red,
    Green,
    Yellow,
    Blue,
    Magenta,
    Cyan,
    White,
}

impl Color {
    /// The color's number in the ANSI palette.
    pub open spec fn code(self) -> nat {
        match self {
            Color::Black => 0,
            Color::Red => 1,
            Color::Green => 2,
            Color::Yellow => 3,
            Color::Blue => 4,
            Color::Magenta => 5,
            Color::Cyan => 6,
            Color::White => 7,
        }
    }

    /// Returns the color's number in the ANSI palette (0 to 7).
    pub fn ansi_num(&self) -> (r: usize)
        ensures
            r as nat == self.code(),
            r < 8,
    {
        match *self {
            Color::Black => 0,
            Color::Red => 1,
            Color::Green => 2,
            Color::Yellow => 3,
            Color::Blue => 4,
            Color::Magenta => 5,
            Color::Cyan => 6,
            Color::White => 7,
        }
    }
}

/// An ANSI text attribute.
#[derive(Copy, Clone, Debug, PartialEq, Eq, Structural, Ord, PartialOrd)]
pub enum Style {
    Bold,
    Dim,
    Underlined,
    Blink,
    Reverse,
    Hidden,
}

/// The number of text attributes.
pub const STYLE_COUNT: usize = 6;

impl Style {
    /// The attribute's SGR code.
    pub open spec fn code(self) -> nat {
        match self {
            Style::Bold => 1,
            Style::Dim => 2,
            Style::Underlined => 4,
            Style::Blink => 5,
            Style::Reverse => 7,
            Style::Hidden => 8,
        }
    }

    /// The attribute's place in emission order: attributes are emitted by
    /// ascending rank, which is ascending code.
    pub open spec fn rank(self) -> nat {
        match self {
            Style::Bold => 0,
            Style::Dim => 1,
            Style::Underlined => 2,
            Style::Blink => 3,
            Style::Reverse => 4,
            Style::Hidden => 5,
        }
    }

    /// Returns the attribute's SGR code.
    pub fn ansi_num(&self) -> (r: usize)
        ensures
            r as nat == self.code(),
            r < 10,
    {
        match *self {
            Style::Bold => 1,
            Style::Dim => 2,
            Style::Underlined => 4,
            Style::Blink => 5,
            Style::Reverse => 7,
            Style::Hidden => 8,
        }
    }

    /// Returns the attribute's rank in emission order.
    pub fn rank_of(&self) -> (r: usize)
        ensures
            r as nat == self.rank(),
            r < STYLE_COUNT,
    {
        match *self {
            Style::Bold => 0,
            Style::Dim => 1,
            Style::Underlined => 2,
            Style::Blink => 3,
            Style::Reverse => 4,
            Style::Hidden => 5,
        }
    }
}

/// The attribute of a given rank.
pub open spec fn style_of_rank(k: nat) -> Style {
    if k == 0 {
        Style::Bold
    } else if k == 1 {
        Style::Dim
    } else if k == 2 {
        Style::Underlined
    } else if k == 3 {
        Style::Blink
    } else if k == 4 {
        Style::Reverse
    } else {
        Style::Hidden
    }
}

/// Returns the attribute of rank `k`.
pub fn style_at(k: usize) -> (r: Style)
    requires
        k < STYLE_COUNT,
    ensures
        r == style_of_rank(k as nat),
        r.rank() == k,
{
    if k == 0 {
        Style::Bold
    } else if k == 1 {
        Style::Dim
    } else if k == 2 {
        Style::Underlined
    } else if k == 3 {
        Style::Blink
    } else if k == 4 {
        Style::Reverse
    } else {
        Style::Hidden
    }
}

/// Rank and attribute correspond one to one.
pub proof fn lemma_rank_inverse(s: Style)
    ensures
        s.rank() < STYLE_COUNT,
        style_of_rank(s.rank()) == s,
{
}

/// Emission order by rank is ascending order of code.
pub proof fn lemma_rank_orders_codes(s: Style, t: Style)
    ensures
        s.rank() < t.rank() <==> s.code() < t.code(),
{
}

} // verus!
