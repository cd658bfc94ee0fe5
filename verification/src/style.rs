//! Text attributes (bold, italic, ...) as an 8-bit flag set.

use vstd::prelude::*;

verus! {

/// One individual text attribute, or `Clear` for the absence of any.
#[derive(Clone, Copy, Debug, PartialEq, Eq, Structural)]
pub enum Styles {
    Clear,
    Bold,
    Dimmed,
    Underline,
    Reversed,
    Italic,
    Blink,
    Hidden,
    Strikethrough,
}

/// A set of text attributes, one bit per attribute.
#[derive(Clone, Copy, Debug, PartialEq, Eq, Structural)]
pub struct Style(pub u8);

impl Styles {
    /// The bit that represents this attribute in a `Style` mask; `Clear`
    /// contributes no bit.
    pub open spec fn spec_to_u8(self) -> u8 {
        match self {
            Styles::Clear => 0u8,
            Styles::Bold => 0x01u8,
            Styles::Underline => 0x02u8,
            Styles::Reversed => 0x04u8,
            Styles::Italic => 0x08u8,
            Styles::Blink => 0x10u8,
            Styles::Hidden => 0x20u8,
            Styles::Dimmed => 0x40u8,
            Styles::Strikethrough => 0x80u8,
        }
    }

    /// Returns the bit mask of this attribute.
    #[verifier::when_used_as_spec(spec_to_u8)]
    pub fn to_u8(self) -> (m: u8)
        ensures
            m == self.spec_to_u8(),
    {
        match self {
            Styles::Clear => 0x00,
            Styles::Bold => 0x01,
            Styles::Underline => 0x02,
            Styles::Reversed => 0x04,
            Styles::Italic => 0x08,
            Styles::Blink => 0x10,
            Styles::Hidden => 0x20,
            Styles::Dimmed => 0x40,
            Styles::Strikethrough => 0x80,
        }
    }
}

/// Whether the attribute `s` is present in the mask `m`.
pub open spec fn spec_contains(m: u8, s: Styles) -> bool {
    m & s.spec_to_u8() == s.spec_to_u8()
}

/// The attribute checked at position `i` of the fixed enumeration order
/// (Bold, Dimmed, Underline, Reversed, Italic, Blink, Hidden,
/// Strikethrough), which both the SGR serialization and `from_u8` follow.
pub open spec fn style_entry(i: int) -> Styles {
    if i == 0 {
        Styles::Bold
    } else if i == 1 {
        Styles::Dimmed
    } else if i == 2 {
        Styles::Underline
    } else if i == 3 {
        Styles::Reversed
    } else if i == 4 {
        Styles::Italic
    } else if i == 5 {
        Styles::Blink
    } else if i == 6 {
        Styles::Hidden
    } else {
        Styles::Strikethrough
    }
}

/// The SGR code character of one attribute; `Clear` has none.
pub open spec fn spec_styles_str(s: Styles) -> Seq<char> {
    match s {
        Styles::Clear => Seq::empty(),
        Styles::Bold => seq!['1'],
        Styles::Dimmed => seq!['2'],
        Styles::Italic => seq!['3'],
        Styles::Underline => seq!['4'],
        Styles::Blink => seq!['5'],
        Styles::Reversed => seq!['7'],
        Styles::Hidden => seq!['8'],
        Styles::Strikethrough => seq!['9'],
    }
}

/// The attributes of mask `u` among the first `i` of the enumeration order,
/// in that order.
pub open spec fn spec_styles_of_upto(u: u8, i: int) -> Seq<Styles>
    decreases i,
{
    if i <= 0 {
        Seq::empty()
    } else {
        let pre = spec_styles_of_upto(u, i - 1);
        if spec_contains(u, style_entry(i - 1)) {
            pre.push(style_entry(i - 1))
        } else {
            pre
        }
    }
}

/// The SGR codes of the attributes of mask `u` among the first `i` of the
/// enumeration order, joined with `';'`.
pub open spec fn spec_style_str_upto(u: u8, i: int) -> Seq<char>
    decreases i,
{
    if i <= 0 {
        Seq::empty()
    } else {
        let pre = spec_style_str_upto(u, i - 1);
        if spec_contains(u, style_entry(i - 1)) {
            if pre.len() == 0 {
                spec_styles_str(style_entry(i - 1))
            } else {
                pre + seq![';'] + spec_styles_str(style_entry(i - 1))
            }
        } else {
            pre
        }
    }
}

/// The serialized SGR code list of a whole mask: every set attribute's
/// code, in the fixed enumeration order, `';'`-separated; empty for the
/// empty mask.
pub open spec fn spec_style_str(u: u8) -> Seq<char> {
    spec_style_str_upto(u, 8)
}

impl Styles {
    /// Returns the SGR code of this attribute as a string; the empty string
    /// for `Clear`.
    pub fn to_str(self) -> (s: &'static str)
        ensures
            s@ == spec_styles_str(self),
    {
        proof {
            reveal_strlit("");
            reveal_strlit("1");
            reveal_strlit("2");
            reveal_strlit("3");
            reveal_strlit("4");
            reveal_strlit("5");
            reveal_strlit("7");
            reveal_strlit("8");
            reveal_strlit("9");
        }
        let s: &'static str = match self {
            Styles::Clear => "",
            Styles::Bold => "1",
            Styles::Dimmed => "2",
            Styles::Italic => "3",
            Styles::Underline => "4",
            Styles::Blink => "5",
            Styles::Reversed => "7",
            Styles::Hidden => "8",
            Styles::Strikethrough => "9",
        };
        proof {
            assert(s@ =~= spec_styles_str(self));
        }
        s
    }

    /// The set of all attributes except this one.
    pub fn complement(self) -> (r: Style)
        ensures
            r.0 == !self.spec_to_u8(),
    {
        Style(!self.to_u8())
    }

    /// Lists the attributes set in a mask, in the fixed enumeration order;
    /// `None` when the mask is empty.
    pub fn from_u8(u: u8) -> (r: Option<Vec<Styles>>)
        ensures
            u == 0 ==> r is None,
            u != 0 ==> (r matches Some(v) && v@ == spec_styles_of_upto(u, 8)),
    {
        if u == 0 {
            return None;
        }
        let mut res: Vec<Styles> = Vec::new();
        let mut i: u8 = 0;
        while i < 8
            invariant
                0 <= i <= 8,
                res@ == spec_styles_of_upto(u, i as int),
            decreases 8 - i,
        {
            let entry = style_entry_exec(i);
            if u & entry.to_u8() == entry.to_u8() {
                res.push(entry);
            }
            i = i + 1;
        }
        Some(res)
    }
}

fn style_entry_exec(i: u8) -> (s: Styles)
    requires
        i < 8,
    ensures
        s == style_entry(i as int),
{
    match i {
        0 => Styles::Bold,
        1 => Styles::Dimmed,
        2 => Styles::Underline,
        3 => Styles::Reversed,
        4 => Styles::Italic,
        5 => Styles::Blink,
        6 => Styles::Hidden,
        _ => Styles::Strikethrough,
    }
}

impl Style {
    /// Checks whether every bit of `style` is set in this mask.
    pub fn contains(self, style: Styles) -> (r: bool)
        ensures
            r == spec_contains(self.0, style),
    {
        let s = style.to_u8();
        self.0 & s == s
    }

    /// Serializes the set attributes as their `';'`-joined SGR codes, in
    /// the fixed enumeration order; the empty string when none is set.
    pub fn to_str(self) -> (s: String)
        ensures
            s@ == spec_style_str(self.0),
    {
        let mut res = String::new();
        let mut has_wrote = false;
        let mut i: u8 = 0;
        while i < 8
            invariant
                0 <= i <= 8,
                res@ == spec_style_str_upto(self.0, i as int),
                has_wrote == (res@.len() != 0),
            decreases 8 - i,
        {
            let entry = style_entry_exec(i);
            if self.0 & entry.to_u8() == entry.to_u8() {
                if has_wrote {
                    res.append(";");
                }
                res.append(entry.to_str());
                has_wrote = true;
                proof {
                    reveal_strlit(";");
                    assert(";"@ =~= seq![';']);
                    assert(spec_styles_str(style_entry(i as int)).len() == 1);
                    assert(res@ =~= spec_style_str_upto(self.0, i as int + 1));
                }
            }
            i = i + 1;
        }
        res
    }

    /// Adds one attribute to the set.
    pub fn add(&mut self, style: Styles)
        ensures
            final(self).0 == old(self).0 | style.spec_to_u8(),
    {
        self.0 = self.0 | style.to_u8();
    }

    /// Removes one attribute from the set.
    pub fn remove(&mut self, style: Styles)
        ensures
            final(self).0 == old(self).0 & !style.spec_to_u8(),
    {
        self.0 = self.0 & !style.to_u8();
    }

    /// The set of attributes present in either operand.
    pub fn union(self, other: Style) -> (r: Style)
        ensures
            r.0 == self.0 | other.0,
    {
        Style(self.0 | other.0)
    }

    /// The set of attributes present in both operands.
    pub fn intersect(self, other: Style) -> (r: Style)
        ensures
            r.0 == self.0 & other.0,
    {
        Style(self.0 & other.0)
    }

    /// The set of attributes present in exactly one operand.
    pub fn symmetric_difference(self, other: Style) -> (r: Style)
        ensures
            r.0 == self.0 ^ other.0,
    {
        Style(self.0 ^ other.0)
    }

    /// The set of all attributes not present in this one.
    pub fn complement(self) -> (r: Style)
        ensures
            r.0 == !self.0,
    {
        Style(!self.0)
    }

    /// The union of a list of attributes, starting from the empty set.
    pub fn from_styles(styles: &Vec<Styles>) -> (r: Style)
        ensures
            r.0 == spec_styles_mask(styles@),
    {
        let mut style = Style(0);
        let mut i: usize = 0;
        while i < styles.len()
            invariant
                0 <= i <= styles@.len(),
                style.0 == spec_styles_mask(styles@.take(i as int)),
            decreases styles@.len() - i,
        {
            proof {
                assert(styles@.take(i as int + 1).drop_last() =~= styles@.take(i as int));
                assert(styles@.take(i as int + 1).last() == styles@[i as int]);
            }
            style.add(styles[i]);
            i = i + 1;
        }
        proof {
            assert(styles@.take(styles@.len() as int) =~= styles@);
        }
        style
    }

    pub fn bold(self) -> (r: Style)
        ensures
            r.0 == self.0 | Styles::Bold.spec_to_u8(),
    {
        let mut s = self;
        s.add(Styles::Bold);
        s
    }

    pub fn dimmed(self) -> (r: Style)
        ensures
            r.0 == self.0 | Styles::Dimmed.spec_to_u8(),
    {
        let mut s = self;
        s.add(Styles::Dimmed);
        s
    }

    pub fn underline(self) -> (r: Style)
        ensures
            r.0 == self.0 | Styles::Underline.spec_to_u8(),
    {
        let mut s = self;
        s.add(Styles::Underline);
        s
    }

    pub fn reversed(self) -> (r: Style)
        ensures
            r.0 == self.0 | Styles::Reversed.spec_to_u8(),
    {
        let mut s = self;
        s.add(Styles::Reversed);
        s
    }

    pub fn italic(self) -> (r: Style)
        ensures
            r.0 == self.0 | Styles::Italic.spec_to_u8(),
    {
        let mut s = self;
        s.add(Styles::Italic);
        s
    }

    pub fn blink(self) -> (r: Style)
        ensures
            r.0 == self.0 | Styles::Blink.spec_to_u8(),
    {
        let mut s = self;
        s.add(Styles::Blink);
        s
    }

    pub fn hidden(self) -> (r: Style)
        ensures
            r.0 == self.0 | Styles::Hidden.spec_to_u8(),
    {
        let mut s = self;
        s.add(Styles::Hidden);
        s
    }

    pub fn strikethrough(self) -> (r: Style)
        ensures
            r.0 == self.0 | Styles::Strikethrough.spec_to_u8(),
    {
        let mut s = self;
        s.add(Styles::Strikethrough);
        s
    }
}

/// The combined bit mask of a list of attributes.
pub open spec fn spec_styles_mask(styles: Seq<Styles>) -> u8
    decreases styles.len(),
{
    if styles.len() == 0 {
        0u8
    } else {
        spec_styles_mask(styles.drop_last()) | styles.last().spec_to_u8()
    }
}

impl Default for Style {
    /// The empty attribute set.
    fn default() -> (r: Style)
        ensures
            r.0 == 0,
    {
        Style(0)
    }
}

impl From<Styles> for Style {
    /// The singleton set of one attribute (empty for `Clear`).
    fn from(s: Styles) -> (r: Style)
        ensures
            r.0 == s.spec_to_u8(),
    {
        Style(s.to_u8())
    }
}

impl vstd::std_specs::convert::FromSpecImpl<Styles> for Style {
    open spec fn obeys_from_spec() -> bool {
        true
    }

    open spec fn from_spec(s: Styles) -> Style {
        Style(s.spec_to_u8())
    }
}

/// A nonempty attribute set serializes to a nonempty code list.
pub proof fn lemma_style_str_nonempty(u: u8)
    requires
        u != 0,
    ensures
        spec_style_str(u).len() > 0,
{
    assert((u & 0x01 == 0x01) || (u & 0x40 == 0x40) || (u & 0x02 == 0x02) || (u & 0x04 == 0x04)
        || (u & 0x08 == 0x08) || (u & 0x10 == 0x10) || (u & 0x20 == 0x20) || (u & 0x80 == 0x80))
        by (bit_vector)
        requires
            u != 0,
    ;
    if spec_contains(u, style_entry(0)) {
        lemma_style_str_upto_nonempty(u, 0, 8);
    } else if spec_contains(u, style_entry(1)) {
        lemma_style_str_upto_nonempty(u, 1, 8);
    } else if spec_contains(u, style_entry(2)) {
        lemma_style_str_upto_nonempty(u, 2, 8);
    } else if spec_contains(u, style_entry(3)) {
        lemma_style_str_upto_nonempty(u, 3, 8);
    } else if spec_contains(u, style_entry(4)) {
        lemma_style_str_upto_nonempty(u, 4, 8);
    } else if spec_contains(u, style_entry(5)) {
        lemma_style_str_upto_nonempty(u, 5, 8);
    } else if spec_contains(u, style_entry(6)) {
        lemma_style_str_upto_nonempty(u, 6, 8);
    } else {
        lemma_style_str_upto_nonempty(u, 7, 8);
    }
}

proof fn lemma_style_str_upto_nonempty(u: u8, j: int, i: int)
    requires
        0 <= j < i <= 8,
        spec_contains(u, style_entry(j)),
    ensures
        spec_style_str_upto(u, i).len() > 0,
    decreases i,
{
    if i - 1 == j {
        assert(spec_styles_str(style_entry(j)).len() == 1);
    } else {
        lemma_style_str_upto_nonempty(u, j, i - 1);
    }
}

/// The union of a set with its complement holds every attribute, and their
/// intersection holds none, whatever the set.
pub proof fn lemma_complement_laws(x: Style)
    ensures
        forall|s: Styles| #[trigger] spec_contains(x.0 | !x.0, s),
        x.0 & !x.0 == 0,
{
    let v = x.0;
    assert(v | !v == 0xFF && v & !v == 0) by (bit_vector);
    assert forall|s: Styles| #[trigger] spec_contains(0xFFu8, s) by {
        let m = s.spec_to_u8();
        assert(0xFFu8 & m == m) by (bit_vector);
    }
}

/// Serializing the empty attribute set yields the empty string.
pub proof fn lemma_clear_serializes_empty()
    ensures
        spec_style_str(0) == Seq::<char>::empty(),
{
    assert forall|i: int| 0 <= i <= 8 implies spec_style_str_upto(0, i) =~= Seq::<char>::empty() by {
        lemma_style_str_upto_zero(i);
    }
}

proof fn lemma_style_str_upto_zero(i: int)
    ensures
        spec_style_str_upto(0, i) =~= Seq::<char>::empty(),
    decreases i,
{
    if i > 0 {
        lemma_style_str_upto_zero(i - 1);
        let m = style_entry(i - 1).spec_to_u8();
        assert(0u8 & m != m || m == 0) by (bit_vector);
        assert(m != 0);
    }
}

} // verus!
