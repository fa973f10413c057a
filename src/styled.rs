use vstd::prelude::*;

use crate::color::{style_at, style_of_rank, Color, Style, STYLE_COUNT};
use crate::escape::{push_sgr, reset_seq, sgr};

verus! {

/// What a wrapper applies around its value: the colors, the set of
/// attributes and the per-value override of the global policy.
pub struct Styling {
    pub fg: Option<Color>,
    pub bg: Option<Color>,
    pub attrs: Set<Style>,
    pub force: Option<bool>,
}

/// The escape sequences of the attributes of rank `k` and above that are in
/// `attrs`, by ascending rank.
pub open spec fn attrs_text(attrs: Set<Style>, k: nat) -> Seq<char>
    decreases STYLE_COUNT - k,
{
    if k >= STYLE_COUNT {
        Seq::empty()
    } else {
        let s = style_of_rank(k);
        let here = if attrs.contains(s) {
            sgr(s.code())
        } else {
            Seq::empty()
        };
        here + attrs_text(attrs, k + 1)
    }
}

/// The escape sequence that selects a color, at `base` + the color's code.
pub open spec fn color_text(c: Option<Color>, base: nat) -> Seq<char> {
    match c {
        Some(c) => sgr(base + c.code()),
        None => Seq::empty(),
    }
}

impl Styling {
    /// No color, no attribute, no override.
    pub open spec fn plain() -> Styling {
        Styling { fg: None, bg: None, attrs: Set::empty(), force: None }
    }

    /// The same with foreground `c`.
    pub open spec fn with_fg(self, c: Color) -> Styling {
        Styling { fg: Some(c), ..self }
    }

    /// The same with background `c`.
    pub open spec fn with_bg(self, c: Color) -> Styling {
        Styling { bg: Some(c), ..self }
    }

    /// The same with attribute `s` added.
    pub open spec fn with_attr(self, s: Style) -> Styling {
        Styling { attrs: self.attrs.insert(s), ..self }
    }

    /// The same with the override set to `on`.
    pub open spec fn with_force(self, on: bool) -> Styling {
        Styling { force: Some(on), ..self }
    }

    /// Whether styling is applied, given the global policy: the override
    /// wins where it is set.
    pub open spec fn effective(self, policy: bool) -> bool {
        match self.force {
            Some(on) => on,
            None => policy,
        }
    }

    /// What is emitted before the value: nothing when styling is off, else
    /// the foreground, the background, then the attributes by ascending code.
    pub open spec fn prefix_text(self, on: bool) -> Seq<char> {
        if on {
            color_text(self.fg, 30) + color_text(self.bg, 40) + attrs_text(self.attrs, 0)
        } else {
            Seq::empty()
        }
    }

    /// What is emitted after the value: the reset sequence exactly when the
    /// prefix emitted anything.
    pub open spec fn suffix_text(self, on: bool) -> Seq<char> {
        if self.prefix_text(on).len() > 0 {
            reset_seq()
        } else {
            Seq::empty()
        }
    }

    /// The whole rendering around the value's own text `inner`.
    pub open spec fn text(self, policy: bool, inner: Seq<char>) -> Seq<char> {
        let on = self.effective(policy);
        self.prefix_text(on) + inner + self.suffix_text(on)
    }
}

/// A value wrapped for rendering with ANSI styles.
pub struct Styled<D> {
    fg: Option<Color>,
    bg: Option<Color>,
    // whether the attribute of each rank is set
    styles: [bool; STYLE_COUNT],
    force: Option<bool>,
    val: D,
}

impl<D> View for Styled<D> {
    type V = Styling;

    closed spec fn view(&self) -> Styling {
        Styling {
            fg: self.fg,
            bg: self.bg,
            attrs: Set::new(|s: Style| self.styles@[s.rank() as int]),
            force: self.force,
        }
    }
}

/// Wraps a value for styled rendering, with no color, no attribute and no
/// override.
pub fn style<D>(val: D) -> (r: Styled<D>)
    ensures
        r@ == Styling::plain(),
        r.wrapped() == val,
{
    let r = Styled { fg: None, bg: None, styles: [false; STYLE_COUNT], force: None, val };
    assert(r@.attrs =~= Set::<Style>::empty());
    r
}

impl<D> Styled<D> {
    /// The wrapped value.
    pub closed spec fn wrapped(&self) -> D {
        self.val
    }

    /// Returns the wrapped value, which the wrapper never changes.
    pub fn value(&self) -> (r: &D)
        ensures
            *r == self.wrapped(),
    {
        &self.val
    }

    /// Forces styling on or off for this value, whatever the global policy.
    pub fn force_styling(self, value: bool) -> (r: Styled<D>)
        ensures
            r@ == self@.with_force(value),
            r.wrapped() == self.wrapped(),
    {
        let mut r = self;
        r.force = Some(value);
        r
    }

    /// Sets the foreground color, replacing an earlier one.
    pub fn fg(self, color: Color) -> (r: Styled<D>)
        ensures
            r@ == self@.with_fg(color),
            r.wrapped() == self.wrapped(),
    {
        let mut r = self;
        r.fg = Some(color);
        r
    }

    /// Sets the background color, replacing an earlier one.
    pub fn bg(self, color: Color) -> (r: Styled<D>)
        ensures
            r@ == self@.with_bg(color),
            r.wrapped() == self.wrapped(),
    {
        let mut r = self;
        r.bg = Some(color);
        r
    }

    /// Adds an attribute; adding one that is present changes nothing.
    pub fn style(self, style: Style) -> (r: Styled<D>)
        ensures
            r@ == self@.with_attr(style),
            r.wrapped() == self.wrapped(),
    {
        let ghost before = self@;
        let k = style.rank_of();
        let mut r = self;
        r.styles[k] = true;
        proof {
            assert forall|s: Style| #[trigger] r@.attrs.contains(s) == before.attrs.insert(
                style,
            ).contains(s) by {
                crate::color::lemma_rank_inverse(s);
                crate::color::lemma_rank_inverse(style);
            }
            assert(r@.attrs =~= before.attrs.insert(style));
        }
        r
    }

    /// Returns whether styling applies to this value under the global
    /// policy `policy`: the override where set, else the policy.
    pub fn effective_styling(&self, policy: bool) -> (r: bool)
        ensures
            r == self@.effective(policy),
    {
        match self.force {
            Some(on) => on,
            None => policy,
        }
    }

    /// Returns the escape sequences to emit before and after the value's own
    /// rendering under the global policy `policy`. The second is the reset
    /// sequence exactly when the first is not empty.
    pub fn escapes(&self, policy: bool) -> (r: (String, String))
        ensures
            r.0@ == self@.prefix_text(self@.effective(policy)),
            r.1@ == self@.suffix_text(self@.effective(policy)),
    {
        let on = self.effective_styling(policy);
        let mut prefix = String::new();
        let mut emitted = false;
        if on {
            if let Some(fg) = self.fg {
                push_sgr(&mut prefix, fg.ansi_num() + 30);
                emitted = true;
            }
            if let Some(bg) = self.bg {
                push_sgr(&mut prefix, bg.ansi_num() + 40);
                emitted = true;
            }
            assert(prefix@ =~= color_text(self.fg, 30) + color_text(self.bg, 40));
            let ghost head = prefix@;
            let mut k: usize = 0;
            while k < STYLE_COUNT
                invariant
                    k <= STYLE_COUNT,
                    prefix@ + attrs_text(self@.attrs, k as nat) == head + attrs_text(
                        self@.attrs,
                        0,
                    ),
                    emitted == (prefix@.len() > 0),
                decreases STYLE_COUNT - k,
            {
                let s = style_at(k);
                assert(self@.attrs.contains(s) == self.styles@[k as int]);
                if self.styles[k] {
                    push_sgr(&mut prefix, s.ansi_num());
                    emitted = true;
                }
                proof {
                    let here = if self@.attrs.contains(s) {
                        sgr(s.code())
                    } else {
                        Seq::empty()
                    };
                    assert(attrs_text(self@.attrs, k as nat) == here + attrs_text(
                        self@.attrs,
                        (k + 1) as nat,
                    ));
                    assert(prefix@ + attrs_text(self@.attrs, (k + 1) as nat) =~= head
                        + attrs_text(self@.attrs, 0));
                }
                k = k + 1;
            }
            assert(prefix@ =~= self@.prefix_text(on));
        } else {
            assert(prefix@ =~= self@.prefix_text(on));
        }
        let mut suffix = String::new();
        if emitted {
            push_sgr(&mut suffix, 0);
        }
        assert(suffix@ =~= self@.suffix_text(on));
        (prefix, suffix)
    }

    /// Renders the wrapper around `inner`, the value's own rendering, under
    /// the global policy `policy`.
    pub fn render(&self, policy: bool, inner: &str) -> (r: String)
        ensures
            r@ == self@.text(policy, inner@),
    {
        let (mut out, suffix) = self.escapes(policy);
        out.append(inner);
        out.append(suffix.as_str());
        out
    }

    /// Sets the foreground to black.
    pub fn black(self) -> (r: Styled<D>)
        ensures
            r@ == self@.with_fg(Color::Black),
            r.wrapped() == self.wrapped(),
    {
        self.fg(Color::Black)
    }

    /// Sets the foreground to red.
    pub fn red(self) -> (r: Styled<D>)
        ensures
            r@ == self@.with_fg(Color::Red),
            r.wrapped() == self.wrapped(),
    {
        self.fg(Color::Red)
    }

    /// Sets the foreground to green.
    pub fn green(self) -> (r: Styled<D>)
        ensures
            r@ == self@.with_fg(Color::Green),
            r.wrapped() == self.wrapped(),
    {
        self.fg(Color::Green)
    }

    /// Sets the foreground to yellow.
    pub fn yellow(self) -> (r: Styled<D>)
        ensures
            r@ == self@.with_fg(Color::Yellow),
            r.wrapped() == self.wrapped(),
    {
        self.fg(Color::Yellow)
    }

    /// Sets the foreground to blue.
    pub fn blue(self) -> (r: Styled<D>)
        ensures
            r@ == self@.with_fg(Color::Blue),
            r.wrapped() == self.wrapped(),
    {
        self.fg(Color::Blue)
    }

    /// Sets the foreground to magenta.
    pub fn magenta(self) -> (r: Styled<D>)
        ensures
            r@ == self@.with_fg(Color::Magenta),
            r.wrapped() == self.wrapped(),
    {
        self.fg(Color::Magenta)
    }

    /// Sets the foreground to cyan.
    pub fn cyan(self) -> (r: Styled<D>)
        ensures
            r@ == self@.with_fg(Color::Cyan),
            r.wrapped() == self.wrapped(),
    {
        self.fg(Color::Cyan)
    }

    /// Sets the foreground to white.
    pub fn white(self) -> (r: Styled<D>)
        ensures
            r@ == self@.with_fg(Color::White),
            r.wrapped() == self.wrapped(),
    {
        self.fg(Color::White)
    }

    /// Sets the background to black.
    pub fn on_black(self) -> (r: Styled<D>)
        ensures
            r@ == self@.with_bg(Color::Black),
            r.wrapped() == self.wrapped(),
    {
        self.bg(Color::Black)
    }

    /// Sets the background to red.
    pub fn on_red(self) -> (r: Styled<D>)
        ensures
            r@ == self@.with_bg(Color::Red),
            r.wrapped() == self.wrapped(),
    {
        self.bg(Color::Red)
    }

    /// Sets the background to green.
    pub fn on_green(self) -> (r: Styled<D>)
        ensures
            r@ == self@.with_bg(Color::Green),
            r.wrapped() == self.wrapped(),
    {
        self.bg(Color::Green)
    }

    /// Sets the background to yellow.
    pub fn on_yellow(self) -> (r: Styled<D>)
        ensures
            r@ == self@.with_bg(Color::Yellow),
            r.wrapped() == self.wrapped(),
    {
        self.bg(Color::Yellow)
    }

    /// Sets the background to blue.
    pub fn on_blue(self) -> (r: Styled<D>)
        ensures
            r@ == self@.with_bg(Color::Blue),
            r.wrapped() == self.wrapped(),
    {
        self.bg(Color::Blue)
    }

    /// Sets the background to magenta.
    pub fn on_magenta(self) -> (r: Styled<D>)
        ensures
            r@ == self@.with_bg(Color::Magenta),
            r.wrapped() == self.wrapped(),
    {
        self.bg(Color::Magenta)
    }

    /// Sets the background to cyan.
    pub fn on_cyan(self) -> (r: Styled<D>)
        ensures
            r@ == self@.with_bg(Color::Cyan),
            r.wrapped() == self.wrapped(),
    {
        self.bg(Color::Cyan)
    }

    /// Sets the background to white.
    pub fn on_white(self) -> (r: Styled<D>)
        ensures
            r@ == self@.with_bg(Color::White),
            r.wrapped() == self.wrapped(),
    {
        self.bg(Color::White)
    }

    /// Adds the bold attribute.
    pub fn bold(self) -> (r: Styled<D>)
        ensures
            r@ == self@.with_attr(Style::Bold),
            r.wrapped() == self.wrapped(),
    {
        self.style(Style::Bold)
    }

    /// Adds the dim attribute.
    pub fn dim(self) -> (r: Styled<D>)
        ensures
            r@ == self@.with_attr(Style::Dim),
            r.wrapped() == self.wrapped(),
    {
        self.style(Style::Dim)
    }

    /// Adds the underlined attribute.
    pub fn underlined(self) -> (r: Styled<D>)
        ensures
            r@ == self@.with_attr(Style::Underlined),
            r.wrapped() == self.wrapped(),
    {
        self.style(Style::Underlined)
    }

    /// Adds the blink attribute.
    pub fn blink(self) -> (r: Styled<D>)
        ensures
            r@ == self@.with_attr(Style::Blink),
            r.wrapped() == self.wrapped(),
    {
        self.style(Style::Blink)
    }

    /// Adds the reverse attribute.
    pub fn reverse(self) -> (r: Styled<D>)
        ensures
            r@ == self@.with_attr(Style::Reverse),
            r.wrapped() == self.wrapped(),
    {
        self.style(Style::Reverse)
    }

    /// Adds the hidden attribute.
    pub fn hidden(self) -> (r: Styled<D>)
        ensures
            r@ == self@.with_attr(Style::Hidden),
            r.wrapped() == self.wrapped(),
    {
        self.style(Style::Hidden)
    }
}

/// No attribute set gives no attribute text.
proof fn lemma_no_attrs_text(k: nat)
    ensures
        attrs_text(Set::empty(), k) == Seq::<char>::empty(),
    decreases STYLE_COUNT - k,
{
    if k < STYLE_COUNT {
        lemma_no_attrs_text(k + 1);
        assert(attrs_text(Set::empty(), k) =~= Seq::<char>::empty());
    }
}

/// A forced-on wrapper renders styled whatever the global policy, and a
/// forced-off one renders its value's text alone.
pub proof fn lemma_force_overrides_policy(v: Styling, policy: bool, inner: Seq<char>)
    ensures
        v.with_force(true).text(policy, inner) == v.prefix_text(true) + inner + v.suffix_text(
            true,
        ),
        v.with_force(false).text(policy, inner) == inner,
{
    assert(v.with_force(false).text(policy, inner) =~= inner);
}

/// A wrapper with no color and no attribute renders as its value alone,
/// forced on or not: no escape sequence, not even a reset.
pub proof fn lemma_unstyled_is_plain(v: Styling, policy: bool, inner: Seq<char>)
    requires
        v.fg is None,
        v.bg is None,
        v.attrs == Set::<Style>::empty(),
    ensures
        v.text(policy, inner) == inner,
        Styling::plain().with_force(true).text(policy, inner) == inner,
{
    lemma_no_attrs_text(0);
    let on = v.effective(policy);
    assert(v.prefix_text(on) =~= Seq::<char>::empty());
    assert(v.text(policy, inner) =~= inner);
    let w = Styling::plain().with_force(true);
    assert(w.prefix_text(true) =~= Seq::<char>::empty());
    assert(w.text(policy, inner) =~= inner);
}

/// Adding an attribute twice renders as adding it once.
pub proof fn lemma_attr_idempotent(v: Styling, s: Style, policy: bool, inner: Seq<char>)
    ensures
        v.with_attr(s).with_attr(s) == v.with_attr(s),
        v.with_attr(s).with_attr(s).text(policy, inner) == v.with_attr(s).text(policy, inner),
{
    assert(v.with_attr(s).with_attr(s).attrs =~= v.with_attr(s).attrs);
}

/// The order in which attributes are added does not change the rendering.
pub proof fn lemma_attr_order(v: Styling, a: Style, b: Style, policy: bool, inner: Seq<char>)
    ensures
        v.with_attr(a).with_attr(b) == v.with_attr(b).with_attr(a),
        v.with_attr(a).with_attr(b).text(policy, inner) == v.with_attr(b).with_attr(a).text(
            policy,
            inner,
        ),
{
    assert(v.with_attr(a).with_attr(b).attrs =~= v.with_attr(b).with_attr(a).attrs);
}

/// Setting a color twice keeps the last one.
pub proof fn lemma_last_color_wins(v: Styling, a: Color, b: Color)
    ensures
        v.with_fg(a).with_fg(b) == v.with_fg(b),
        v.with_bg(a).with_bg(b) == v.with_bg(b),
{
}

} // verus!
