//! The styled-text value type: a piece of text together with an optional
//! foreground color, an optional background color and a set of attributes.

use vstd::prelude::*;

use crate::color::Color;
use crate::color::ColorLevel;
use crate::color::spec_to_bg_str;
use crate::color::spec_to_fg_str;
use crate::style::Style;
use crate::style::spec_style_str;

verus! {

/// A string that may have color and/or style applied to it.
#[derive(Clone, Debug)]
pub struct ColoredString {
    /// The plain text that the styling applies to.
    pub input: String,
    /// The foreground color, if any.
    pub fgcolor: Option<Color>,
    /// The background color, if any.
    pub bgcolor: Option<Color>,
    /// The set of text attributes.
    pub style: Style,
}

/// The mathematical value of a `ColoredString`: its text as a character
/// sequence together with the three styling slots.
pub struct StyledView {
    pub text: Seq<char>,
    pub fg: Option<Color>,
    pub bg: Option<Color>,
    pub mask: u8,
}

impl View for ColoredString {
    type V = StyledView;

    open spec fn view(&self) -> StyledView {
        StyledView { text: self.input@, fg: self.fgcolor, bg: self.bgcolor, mask: self.style.0 }
    }
}

/// A styled value is plain when no slot is set: no foreground, no
/// background, no attribute.
pub open spec fn spec_is_plain(v: StyledView) -> bool {
    v.fg is None && v.bg is None && v.mask == 0
}

/// Joins a further SGR parameter fragment onto the already accumulated
/// ones, inserting the `';'` separator unless nothing was written yet.
pub open spec fn join_param(acc: Seq<char>, part: Seq<char>) -> Seq<char> {
    if acc.len() == 0 {
        part
    } else {
        acc + seq![';'] + part
    }
}

/// The `';'`-joined SGR parameter list of a styled value: the attribute
/// codes (when any attribute is set), then the background code, then the
/// foreground code, each only when present.
pub open spec fn spec_style_params(v: StyledView, level: ColorLevel) -> Seq<char> {
    let with_style = if v.mask != 0 {
        spec_style_str(v.mask)
    } else {
        Seq::<char>::empty()
    };
    let with_bg = match v.bg {
        Some(c) => join_param(with_style, spec_to_bg_str(c, level)),
        None => with_style,
    };
    match v.fg {
        Some(c) => join_param(with_bg, spec_to_fg_str(c, level)),
        None => with_bg,
    }
}

/// A non-plain value never produces an empty SGR parameter list: at least
/// one of the attribute set, the background and the foreground contributes
/// a code, and no leading `';'` is emitted before the first one.
pub proof fn lemma_style_params_nonempty(v: StyledView, level: ColorLevel)
    requires
        !spec_is_plain(v),
    ensures
        spec_style_params(v, level).len() > 0,
{
    if v.fg is Some {
        crate::color::lemma_color_code_nonempty(v.fg->0, level);
    } else if v.bg is Some {
        crate::color::lemma_color_code_nonempty(v.bg->0, level);
    } else {
        crate::style::lemma_style_str_nonempty(v.mask);
    }
}

/// The style preamble of a styled value: `ESC [ <params> m`, or the empty
/// string when color output is disabled or the value is plain.
pub open spec fn spec_compute_style(v: StyledView, level: ColorLevel) -> Seq<char> {
    if level == ColorLevel::Disabled || spec_is_plain(v) {
        Seq::<char>::empty()
    } else {
        seq!['\u{1B}', '['] + spec_style_params(v, level) + seq!['m']
    }
}

impl ColoredString {
    /// Removes the foreground color, leaving the other slots alone.
    pub fn clear_fgcolor(&mut self)
        ensures
            final(self)@.fg is None,
            final(self)@.text == old(self)@.text,
            final(self)@.bg == old(self)@.bg,
            final(self)@.mask == old(self)@.mask,
    {
        self.fgcolor = None;
    }

    /// Removes the background color, leaving the other slots alone.
    pub fn clear_bgcolor(&mut self)
        ensures
            final(self)@.bg is None,
            final(self)@.text == old(self)@.text,
            final(self)@.fg == old(self)@.fg,
            final(self)@.mask == old(self)@.mask,
    {
        self.bgcolor = None;
    }

    /// Removes every text attribute, leaving the colors and the text alone.
    pub fn clear_style(&mut self)
        ensures
            final(self)@.mask == 0,
            final(self)@.text == old(self)@.text,
            final(self)@.fg == old(self)@.fg,
            final(self)@.bg == old(self)@.bg,
    {
        self.style = Style(0);
    }

    /// Whether no color and no attribute is set.
    pub fn is_plain(&self) -> (r: bool)
        ensures
            r == spec_is_plain(self@),
    {
        self.bgcolor.is_none() && self.fgcolor.is_none() && self.style.0 == 0
    }

    /// Whether the given capability level allows any color output.
    pub fn has_colors(level: ColorLevel) -> (r: bool)
        ensures
            r == (level != ColorLevel::Disabled),
    {
        !(level == ColorLevel::Disabled)
    }

    /// Renders the style preamble for this value at the given capability
    /// level: empty when plain or when color is disabled, otherwise the
    /// full `ESC [ ... m` prefix.
    pub fn compute_style(&self, level: ColorLevel) -> (s: String)
        ensures
            s@ == spec_compute_style(self@, level),
    {
        if level == ColorLevel::Disabled || self.is_plain() {
            let s = String::new();
            proof {
                assert(s@ =~= spec_compute_style(self@, level));
            }
            return s;
        }
        let mut params = if self.style.0 != 0 {
            self.style.to_str()
        } else {
            String::new()
        };
        if let Some(bgcolor) = &self.bgcolor {
            append_param(&mut params, bgcolor.to_bg_str(level).as_str());
        }
        if let Some(fgcolor) = &self.fgcolor {
            append_param(&mut params, fgcolor.to_fg_str(level).as_str());
        }
        proof {
            assert(params@ == spec_style_params(self@, level));
        }
        let mut res = String::from_str("\u{1B}[");
        res.append(params.as_str());
        res.append("m");
        proof {
            reveal_strlit("\u{1B}[");
            reveal_strlit("m");
            assert("\u{1B}["@ =~= seq!['\u{1B}', '[']);
            assert("m"@ =~= seq!['m']);
            assert(res@ =~= spec_compute_style(self@, level));
        }
        res
    }
}

/// The four-character plain reset sequence `ESC [ 0 m`.
pub open spec fn spec_reset() -> Seq<char> {
    seq!['\u{1B}', '[', '0', 'm']
}

/// Whether the reset sequence occurs in `t` starting at position `i`.
pub open spec fn reset_at(t: Seq<char>, i: int) -> bool {
    0 <= i && i + 4 <= t.len() && t.subrange(i, i + 4) == spec_reset()
}

/// The position of the first occurrence of the reset sequence in `t`, or
/// -1 when there is none.
pub open spec fn find_reset(t: Seq<char>) -> int
    decreases t.len(),
{
    if t.len() < 4 {
        -1
    } else if t.subrange(0, 4) == spec_reset() {
        0
    } else {
        let r = find_reset(t.drop_first());
        if r < 0 {
            -1
        } else {
            r + 1
        }
    }
}

/// A found reset position lies inside the text, with room for the whole
/// four-character sequence.
pub proof fn lemma_find_reset_range(t: Seq<char>)
    ensures
        find_reset(t) == -1 || (0 <= find_reset(t) && find_reset(t) + 4 <= t.len()),
    decreases t.len(),
{
    if t.len() >= 4 && t.subrange(0, 4) != spec_reset() {
        lemma_find_reset_range(t.drop_first());
    }
}

/// `find_reset` answers the first occurrence: a -1 answer means no
/// occurrence anywhere, and a found position is an occurrence with none
/// before it.
pub proof fn lemma_find_reset_first(t: Seq<char>)
    ensures
        find_reset(t) == -1 ==> forall|i: int| !reset_at(t, i),
        find_reset(t) != -1 ==> reset_at(t, find_reset(t)) && (forall|j: int|
            0 <= j < find_reset(t) ==> !reset_at(t, j)),
    decreases t.len(),
{
    if t.len() < 4 {
        assert(forall|i: int| !reset_at(t, i));
    } else if t.subrange(0, 4) == spec_reset() {
        assert(reset_at(t, 0));
    } else {
        let t1 = t.drop_first();
        lemma_find_reset_first(t1);
        lemma_find_reset_range(t1);
        assert forall|i: int| #[trigger] reset_at(t1, i) == reset_at(t, i + 1) by {
            if 0 <= i && i + 4 <= t1.len() {
                assert(t1.subrange(i, i + 4) =~= t.subrange(i + 1, i + 5));
            }
        }
        assert(!reset_at(t, 0));
        let r = find_reset(t1);
        if r < 0 {
            assert forall|i: int| !reset_at(t, i) by {
                if i >= 1 {
                    assert(!reset_at(t1, i - 1));
                    assert(reset_at(t1, i - 1) == reset_at(t, i));
                }
            }
        } else {
            assert(reset_at(t1, r) == reset_at(t, r + 1));
            assert forall|j: int| 0 <= j < r + 1 implies !reset_at(t, j) by {
                if j >= 1 {
                    assert(!reset_at(t1, j - 1));
                    assert(reset_at(t1, j - 1) == reset_at(t, j));
                }
            }
        }
    }
}

/// The safe-nesting rewrite of a text under a given style preamble: after
/// every occurrence of the plain reset sequence, the preamble is inserted,
/// so that an embedded reset cannot strip the enclosing styling from the
/// rest of the text.
pub open spec fn spec_escape(t: Seq<char>, style: Seq<char>) -> Seq<char>
    decreases t.len(),
    via spec_escape_decreases
{
    let i = find_reset(t);
    if i < 0 {
        t
    } else {
        t.subrange(0, i + 4) + style + spec_escape(t.subrange(i + 4, t.len() as int), style)
    }
}

#[via_fn]
proof fn spec_escape_decreases(t: Seq<char>, style: Seq<char>) {
    lemma_find_reset_range(t);
}

fn reset_at_exec(s: &str, i: usize) -> (r: bool)
    requires
        i + 4 <= s@.len() <= usize::MAX,
    ensures
        r == reset_at(s@, i as int),
{
    let c0 = s.get_char(i);
    let c1 = s.get_char(i + 1);
    let c2 = s.get_char(i + 2);
    let c3 = s.get_char(i + 3);
    let r = c0 == '\u{1B}' && c1 == '[' && c2 == '0' && c3 == 'm';
    proof {
        let sub = s@.subrange(i as int, i as int + 4);
        assert(sub[0] == c0 && sub[1] == c1 && sub[2] == c2 && sub[3] == c3);
        if r {
            assert(sub =~= spec_reset());
        } else {
            assert(sub != spec_reset());
        }
    }
    r
}

/// Scans for the first occurrence of the plain reset sequence.
fn find_reset_str(s: &str) -> (r: Option<usize>)
    ensures
        r matches Some(i) ==> i == find_reset(s@),
        r is None ==> find_reset(s@) == -1,
{
    let n = s.unicode_len();
    if n < 4 {
        proof {
            lemma_find_reset_first(s@);
            lemma_find_reset_range(s@);
        }
        return None;
    }
    let mut i: usize = 0;
    while i <= n - 4
        invariant
            4 <= n,
            n == s@.len(),
            0 <= i <= n - 3,
            forall|j: int| 0 <= j < i ==> !reset_at(s@, j),
        decreases n - i,
    {
        if reset_at_exec(s, i) {
            proof {
                lemma_find_reset_first(s@);
            }
            return Some(i);
        }
        i = i + 1;
    }
    proof {
        lemma_find_reset_first(s@);
        assert(forall|j: int| j >= i ==> !reset_at(s@, j));
    }
    None
}

/// Nesting safety: when a text holds the plain reset sequence at exactly
/// one place, the rewrite reinserts the enclosing style right after that
/// occurrence and leaves everything else untouched, so the text after the
/// embedded reset still displays under the enclosing style.
pub proof fn lemma_escape_single_reset(a: Seq<char>, b: Seq<char>, style: Seq<char>)
    requires
        forall|j: int| j != a.len() ==> !reset_at(a + spec_reset() + b, j),
    ensures
        spec_escape(a + spec_reset() + b, style) == a + spec_reset() + style + b,
{
    let t = a + spec_reset() + b;
    assert(t.subrange(a.len() as int, a.len() as int + 4) =~= spec_reset());
    assert(reset_at(t, a.len() as int));
    lemma_find_reset_first(t);
    let f = find_reset(t);
    assert(f != -1);
    assert(f == a.len()) by {
        if f < a.len() {
            assert(reset_at(t, f));
        } else if f > a.len() {
            assert(!reset_at(t, a.len() as int));
        }
    }
    assert(t.subrange(0, f + 4) =~= a + spec_reset());
    assert(t.subrange(f + 4, t.len() as int) =~= b);
    assert forall|j: int| !reset_at(b, j) by {
        if 0 <= j && j + 4 <= b.len() {
            assert(b.subrange(j, j + 4) =~= t.subrange(
                a.len() as int + 4 + j,
                a.len() as int + 4 + j + 4,
            ));
            assert(!reset_at(t, a.len() as int + 4 + j));
        }
    }
    lemma_find_reset_first(b);
    assert(find_reset(b) == -1) by {
        if find_reset(b) != -1 {
            assert(reset_at(b, find_reset(b)));
        }
    }
    assert(spec_escape(b, style) == b);
    assert(spec_escape(t, style) =~= a + spec_reset() + style + b);
}

/// What `escape_inner_reset_sequences` returns: the text unchanged when
/// nothing will be styled, otherwise the safe-nesting rewrite under the
/// value's own preamble.
pub open spec fn spec_escape_inner(v: StyledView, level: ColorLevel) -> Seq<char> {
    if level == ColorLevel::Disabled || spec_is_plain(v) {
        v.text
    } else {
        spec_escape(v.text, spec_compute_style(v, level))
    }
}

/// The rendering of a styled value at a capability level: the plain text
/// when color is disabled or nothing is styled, otherwise the preamble,
/// the rewritten text and the closing reset.
pub open spec fn spec_render(v: StyledView, level: ColorLevel) -> Seq<char> {
    if level == ColorLevel::Disabled || spec_is_plain(v) {
        v.text
    } else {
        spec_compute_style(v, level) + spec_escape_inner(v, level) + spec_reset()
    }
}

/// A plain value, or any value under disabled color output, renders as its
/// text unchanged.
pub proof fn lemma_render_plain(v: StyledView, level: ColorLevel)
    requires
        level == ColorLevel::Disabled || spec_is_plain(v),
    ensures
        spec_render(v, level) == v.text,
{
}

impl ColoredString {
    /// Rewrites the text so that the enclosing style resumes after every
    /// embedded plain reset sequence; the text is returned unchanged when
    /// this value would not style it at all.
    pub fn escape_inner_reset_sequences(&self, level: ColorLevel) -> (r: String)
        ensures
            r@ == spec_escape_inner(self@, level),
    {
        if level == ColorLevel::Disabled || self.is_plain() {
            return self.input.clone();
        }
        let style = self.compute_style(level);
        let n = self.input.as_str().unicode_len();
        let mut result = String::new();
        let mut start: usize = 0;
        proof {
            assert(self@.text.subrange(0, n as int) =~= self@.text);
        }
        loop
            invariant
                start <= n,
                n == self@.text.len(),
                level != ColorLevel::Disabled,
                !spec_is_plain(self@),
                style@ == spec_compute_style(self@, level),
                spec_escape(self@.text, style@) == result@ + spec_escape(
                    self@.text.subrange(start as int, n as int),
                    style@,
                ),
            decreases n - start,
        {
            let rem: &str = self.input.as_str().substring_char(start, n);
            match find_reset_str(rem) {
                Some(i) => {
                    proof {
                        lemma_find_reset_range(rem@);
                    }
                    let piece = rem.substring_char(0, i + 4);
                    result.append(piece);
                    result.append(style.as_str());
                    proof {
                        assert(rem@.subrange(0, i + 4) =~= self@.text.subrange(
                            start as int,
                            start as int + i + 4,
                        ));
                        assert(rem@.subrange(i as int + 4, rem@.len() as int) =~= self@.text.subrange(
                            start as int + i + 4,
                            n as int,
                        ));
                    }
                    start = start + i + 4;
                },
                None => {
                    result.append(rem);
                    proof {
                        assert(result@ =~= spec_escape(self@.text, style@));
                    }
                    return result;
                },
            }
        }
    }

    /// Renders the styled value: the preamble, the rewritten text and the
    /// closing reset; or the text unchanged, byte for byte, when color
    /// output is disabled or the value is plain.
    pub fn render(&self, level: ColorLevel) -> (r: String)
        ensures
            r@ == spec_render(self@, level),
    {
        if level == ColorLevel::Disabled || self.is_plain() {
            return self.input.clone();
        }
        let mut out = self.compute_style(level);
        let escaped = self.escape_inner_reset_sequences(level);
        out.append(escaped.as_str());
        out.append("\u{1B}[0m");
        proof {
            reveal_strlit("\u{1B}[0m");
            assert("\u{1B}[0m"@ =~= spec_reset());
            assert(out@ =~= spec_render(self@, level));
        }
        out
    }
}

impl Default for ColoredString {
    /// Empty text, no colors, no attributes.
    fn default() -> (r: ColoredString)
        ensures
            r@.text == Seq::<char>::empty(),
            spec_is_plain(r@),
    {
        ColoredString { input: String::new(), fgcolor: None, bgcolor: None, style: Style(0) }
    }
}

fn option_color_eq(a: &Option<Color>, b: &Option<Color>) -> (r: bool)
    ensures
        r == (a == b),
{
    match (a, b) {
        (Some(x), Some(y)) => x == y,
        (None, None) => true,
        _ => false,
    }
}

impl PartialEq for ColoredString {
    /// Two styled values are equal when their texts and all three styling
    /// slots agree.
    fn eq(&self, other: &Self) -> (r: bool) {
        self.input == other.input && option_color_eq(&self.fgcolor, &other.fgcolor)
            && option_color_eq(&self.bgcolor, &other.bgcolor) && self.style.0 == other.style.0
    }
}

impl vstd::std_specs::cmp::PartialEqSpecImpl for ColoredString {
    open spec fn obeys_eq_spec() -> bool {
        true
    }

    open spec fn eq_spec(&self, other: &ColoredString) -> bool {
        self@.text == other@.text && self@.fg == other@.fg && self@.bg == other@.bg && self@.mask
            == other@.mask
    }
}

impl From<String> for ColoredString {
    /// Wraps a plain text without any styling.
    fn from(s: String) -> (r: ColoredString)
        ensures
            r@.text == s@,
            spec_is_plain(r@),
    {
        ColoredString { input: s, fgcolor: None, bgcolor: None, style: Style(0) }
    }
}

impl vstd::std_specs::convert::FromSpecImpl<String> for ColoredString {
    open spec fn obeys_from_spec() -> bool {
        true
    }

    open spec fn from_spec(s: String) -> ColoredString {
        ColoredString { input: s, fgcolor: None, bgcolor: None, style: Style(0) }
    }
}

/// Appends one SGR parameter fragment, with a `';'` separator when the
/// accumulator already holds one.
fn append_param(acc: &mut String, part: &str)
    ensures
        final(acc)@ == join_param(old(acc)@, part@),
{
    proof {
        reveal_strlit(";");
        assert(";"@ =~= seq![';']);
    }
    if acc.as_str().unicode_len() != 0 {
        acc.append(";");
    }
    acc.append(part);
}

} // verus!
