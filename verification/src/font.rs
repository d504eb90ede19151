//! Descriptions of fonts, as the framework asks for them.

use crate::vec_map::MapKey;
use vstd::arithmetic::power2::{lemma2_to64, lemma_pow2_adds, lemma_pow2_pos, lemma_pow2_strictly_increases, pow2};
use vstd::prelude::*;

verus! {

/// The position of a font in the list of loaded fonts.
#[derive(Clone, Copy, Debug, PartialEq, Eq, Hash, Structural)]
pub struct FontId(pub usize);

/// The weight of a font, held as the bit pattern of its single-precision value.
#[derive(Clone, Copy, Debug, PartialEq, Eq, Hash, Structural)]
pub struct FontWeight {
    pub bits: u32,
}

/// The slant of a font.
#[derive(Clone, Copy, Debug, PartialEq, Eq, Hash, Structural)]
pub enum FontStyle {
    Normal,
    Italic,
    Oblique,
}

/// An OpenType feature and its value.
#[derive(Clone, Debug, PartialEq, Eq, Hash)]
pub struct FontFeature {
    pub tag: String,
    pub value: u32,
}

/// The OpenType features to shape text with.
#[derive(Clone, Debug, PartialEq, Eq, Hash)]
pub struct FontFeatures {
    pub features: Vec<FontFeature>,
}

/// The families to turn to where a font lacks a glyph.
#[derive(Clone, Debug, PartialEq, Eq, Hash)]
pub struct FontFallbacks {
    pub families: Vec<String>,
}

/// What a family is found by.
#[derive(Clone, Debug, PartialEq, Eq, Hash)]
pub struct FontKey {
    pub family: String,
    pub features: FontFeatures,
    pub fallbacks: Option<FontFallbacks>,
}

/// A font, as the framework asks for it.
#[derive(Clone, Debug, PartialEq, Eq, Hash)]
pub struct Font {
    pub family: String,
    pub features: FontFeatures,
    pub fallbacks: Option<FontFallbacks>,
    pub weight: FontWeight,
    pub style: FontStyle,
}

/// The contents of a [`FontKey`].
pub struct FontKeyView {
    pub family: Seq<char>,
    pub features: Seq<(Seq<char>, u32)>,
    pub fallbacks: Option<Seq<Seq<char>>>,
}

/// The contents of a [`Font`].
pub struct FontView {
    pub key: FontKeyView,
    pub weight: FontWeight,
    pub style: FontStyle,
}

impl FontWeight {
    /// Whether the sign bit is set.
    pub open spec fn is_negative(self) -> bool {
        self.bits >= 0x8000_0000
    }

    /// Whether the value is not a number.
    pub open spec fn is_nan(self) -> bool {
        self.bits % 0x8000_0000 > 0x7f80_0000
    }

    /// The size of the value, as a multiple of two to the power -149. Infinity
    /// counts as the power of two that comes after all finite values.
    pub open spec fn magnitude(self) -> nat {
        let exponent = (self.bits as nat / 0x80_0000) % 0x100;
        let fraction = self.bits as nat % 0x80_0000;
        if exponent == 0 {
            fraction
        } else {
            (0x80_0000 + fraction) * pow2((exponent - 1) as nat)
        }
    }

    /// Whether the value is a number of at least `weight`.
    pub open spec fn at_least(self, weight: nat) -> bool {
        !self.is_nan() && !self.is_negative() && self.magnitude() >= weight * pow2(149)
    }

    /// Whether the weight is that of a bold font: 700 or more.
    pub fn is_bold(self) -> (bold: bool)
        ensures
            bold == self.at_least(700),
    {
        proof {
            self.lemma_bold_bits();
        }
        0x442f_0000 <= self.bits && self.bits <= 0x7f80_0000
    }

    /// The bit patterns of the weights of at least 700 are an interval.
    proof fn lemma_bold_bits(self)
        ensures
            self.at_least(700) <==> 0x442f_0000 <= self.bits <= 0x7f80_0000,
    {
        let exponent = (self.bits as nat / 0x80_0000) % 0x100;
        let fraction = self.bits as nat % 0x80_0000;
        let p = pow2(135);
        lemma2_to64();
        lemma_pow2_adds(135, 14);
        lemma_pow2_pos(135);
        assert(700 * pow2(149) == 11_468_800 * p) by (nonlinear_arith)
            requires
                pow2(149) == pow2(135) * pow2(14),
                pow2(14) == 16384,
                p == pow2(135),
        ;
        if !self.is_nan() && !self.is_negative() {
            assert(self.bits == exponent * 0x80_0000 + fraction);
            if exponent == 0 {
                lemma_pow2_strictly_increases(24, 135);
                assert(self.magnitude() < 11_468_800 * p);
            } else {
                let q = pow2((exponent - 1) as nat);
                lemma_pow2_pos((exponent - 1) as nat);
                assert(self.magnitude() == (0x80_0000 + fraction) * q);
                if exponent < 136 {
                    // The largest such value is below half of the next power of two.
                    let d = (135 - (exponent - 1)) as nat;
                    lemma_pow2_adds((exponent - 1) as nat, d);
                    if d > 1 {
                        lemma_pow2_strictly_increases(1, d);
                    }
                    assert((0x80_0000 + fraction) * q < 11_468_800 * p) by (nonlinear_arith)
                        requires
                            fraction < 0x80_0000,
                            p == q * pow2(d),
                            pow2(d) >= 2,
                            q > 0,
                    ;
                } else if exponent == 136 {
                    assert((0x80_0000 + fraction) * p >= 11_468_800 * p <==> fraction >= 0x2f_0000)
                        by (nonlinear_arith)
                        requires
                            p > 0,
                    ;
                } else {
                    let d = (exponent - 1 - 135) as nat;
                    lemma_pow2_adds(135, d);
                    if d > 1 {
                        lemma_pow2_strictly_increases(1, d);
                    }
                    assert((0x80_0000 + fraction) * q >= 11_468_800 * p) by (nonlinear_arith)
                        requires
                            q == p * pow2(d),
                            pow2(d) >= 2,
                            p > 0,
                    ;
                }
            }
        }
    }
}

/// A weight is bold exactly from 700 on: the bit patterns from that of 700 to that
/// of infinity. Negative weights and those that are no numbers are not bold.
pub proof fn law_bold_starts_at_700(weight: FontWeight)
    ensures
        weight.at_least(700) <==> 0x442f_0000 <= weight.bits <= 0x7f80_0000,
{
    weight.lemma_bold_bits();
}

/// The contents of a list of features.
pub open spec fn features_view(features: Seq<FontFeature>) -> Seq<(Seq<char>, u32)> {
    features.map_values(|feature: FontFeature| (feature.tag@, feature.value))
}

/// The contents of a list of names.
pub open spec fn names_view(names: Seq<String>) -> Seq<Seq<char>> {
    names.map_values(|name: String| name@)
}

/// The contents of an optional list of fallbacks.
pub open spec fn fallbacks_view(fallbacks: Option<FontFallbacks>) -> Option<Seq<Seq<char>>> {
    match fallbacks {
        Some(list) => Some(list@),
        None => None,
    }
}

impl View for FontFeatures {
    type V = Seq<(Seq<char>, u32)>;

    open spec fn view(&self) -> Seq<(Seq<char>, u32)> {
        features_view(self.features@)
    }
}

impl View for FontFallbacks {
    type V = Seq<Seq<char>>;

    open spec fn view(&self) -> Seq<Seq<char>> {
        names_view(self.families@)
    }
}

impl View for FontKey {
    type V = FontKeyView;

    open spec fn view(&self) -> FontKeyView {
        FontKeyView {
            family: self.family@,
            features: self.features@,
            fallbacks: fallbacks_view(self.fallbacks),
        }
    }
}

impl View for Font {
    type V = FontView;

    open spec fn view(&self) -> FontView {
        FontView {
            key: FontKeyView {
                family: self.family@,
                features: self.features@,
                fallbacks: fallbacks_view(self.fallbacks),
            },
            weight: self.weight,
            style: self.style,
        }
    }
}

impl FontFeatures {
    fn duplicate(&self) -> (copy: FontFeatures)
        ensures
            copy@ == self@,
    {
        let mut features: Vec<FontFeature> = Vec::new();
        let mut i: usize = 0;
        while i < self.features.len()
            invariant
                i <= self.features.len(),
                features@.len() == i,
                forall|j: int|
                    0 <= j < i ==> #[trigger] features@[j].tag@ == self.features@[j].tag@
                        && features@[j].value == self.features@[j].value,
            decreases self.features.len() - i,
        {
            let feature = &self.features[i];
            features.push(FontFeature { tag: feature.tag.clone(), value: feature.value });
            i = i + 1;
        }
        assert(features_view(features@) =~= features_view(self.features@));
        FontFeatures { features }
    }

    fn same(&self, other: &FontFeatures) -> (same: bool)
        ensures
            same == (self@ == other@),
    {
        if self.features.len() != other.features.len() {
            assert(self@.len() != other@.len());
            return false;
        }
        let mut i: usize = 0;
        while i < self.features.len()
            invariant
                i <= self.features.len(),
                self.features.len() == other.features.len(),
                forall|j: int|
                    #![trigger self.features@[j]]
                    0 <= j < i ==> self.features@[j].tag@ == other.features@[j].tag@
                        && self.features@[j].value == other.features@[j].value,
            decreases self.features.len() - i,
        {
            let a = &self.features[i];
            let b = &other.features[i];
            if a.tag != b.tag || a.value != b.value {
                assert(self@[i as int] != other@[i as int]);
                return false;
            }
            i = i + 1;
        }
        assert(self@ =~= other@);
        true
    }
}

impl FontFallbacks {
    fn duplicate(&self) -> (copy: FontFallbacks)
        ensures
            copy@ == self@,
    {
        let mut families: Vec<String> = Vec::new();
        let mut i: usize = 0;
        while i < self.families.len()
            invariant
                i <= self.families.len(),
                families@.len() == i,
                forall|j: int|
                    0 <= j < i ==> #[trigger] families@[j]@ == self.families@[j]@,
            decreases self.families.len() - i,
        {
            families.push(self.families[i].clone());
            i = i + 1;
        }
        assert(names_view(families@) =~= names_view(self.families@));
        FontFallbacks { families }
    }

    fn same(&self, other: &FontFallbacks) -> (same: bool)
        ensures
            same == (self@ == other@),
    {
        if self.families.len() != other.families.len() {
            assert(self@.len() != other@.len());
            return false;
        }
        let mut i: usize = 0;
        while i < self.families.len()
            invariant
                i <= self.families.len(),
                self.families.len() == other.families.len(),
                forall|j: int|
                    0 <= j < i ==> #[trigger] self.families@[j]@ == other.families@[j]@,
            decreases self.families.len() - i,
        {
            if self.families[i] != other.families[i] {
                assert(self@[i as int] != other@[i as int]);
                return false;
            }
            i = i + 1;
        }
        assert(self@ =~= other@);
        true
    }
}

fn duplicate_fallbacks(fallbacks: &Option<FontFallbacks>) -> (copy: Option<FontFallbacks>)
    ensures
        fallbacks_view(copy) == fallbacks_view(*fallbacks),
{
    match fallbacks {
        Some(list) => Some(list.duplicate()),
        None => None,
    }
}

fn same_fallbacks(a: &Option<FontFallbacks>, b: &Option<FontFallbacks>) -> (same: bool)
    ensures
        same == (fallbacks_view(*a) == fallbacks_view(*b)),
{
    match (a, b) {
        (Some(x), Some(y)) => x.same(y),
        (None, None) => true,
        _ => false,
    }
}

impl Font {
    /// What the family of the font is found by.
    pub(crate) fn key(&self) -> (key: FontKey)
        ensures
            key@ == self@.key,
    {
        FontKey {
            family: self.family.clone(),
            features: self.features.duplicate(),
            fallbacks: duplicate_fallbacks(&self.fallbacks),
        }
    }

    /// A copy of the description.
    pub(crate) fn duplicate(&self) -> (copy: Font)
        ensures
            copy@ == self@,
    {
        Font {
            family: self.family.clone(),
            features: self.features.duplicate(),
            fallbacks: duplicate_fallbacks(&self.fallbacks),
            weight: self.weight,
            style: self.style,
        }
    }
}

impl MapKey for FontKey {
    fn same_key(&self, other: &FontKey) -> (same: bool) {
        self.family == other.family && self.features.same(&other.features) && same_fallbacks(
            &self.fallbacks,
            &other.fallbacks,
        )
    }
}

impl MapKey for Font {
    fn same_key(&self, other: &Font) -> (same: bool) {
        self.family == other.family && self.features.same(&other.features) && same_fallbacks(
            &self.fallbacks,
            &other.fallbacks,
        ) && self.weight == other.weight && self.style == other.style
    }
}

/// Two descriptions are the same exactly where they agree in everything: family,
/// features and their values in order, fallbacks in order, weight and style.
pub proof fn law_descriptions_are_told_apart(a: Font, b: Font)
    ensures
        a@ == b@ <==> {
            &&& a.family@ == b.family@
            &&& a.features@ == b.features@
            &&& a.fallbacks is Some == b.fallbacks is Some
            &&& a.fallbacks is Some ==> a.fallbacks->0@ == b.fallbacks->0@
            &&& a.weight == b.weight
            &&& a.style == b.style
        },
        a@.key == b@.key <==> {
            &&& a.family@ == b.family@
            &&& a.features@ == b.features@
            &&& a.fallbacks is Some == b.fallbacks is Some
            &&& a.fallbacks is Some ==> a.fallbacks->0@ == b.fallbacks->0@
        },
{
}

/// A description says what family, weight and style it asks for.
pub proof fn law_description_holds_what_is_asked_for(font: Font, key: FontKey)
    ensures
        font@.key.family == font.family@,
        font@.weight == font.weight,
        font@.style == font.style,
        key@.family == key.family@,
        key@.features == key.features@,
        key@.fallbacks is Some == key.fallbacks is Some,
        key.fallbacks is Some ==> key@.fallbacks->0 == key.fallbacks->0@,
{
}

/// Lists of features and of fallbacks are the same exactly where they are equally
/// long and agree in every place.
pub proof fn law_lists_agree_in_every_place(
    a: FontFeatures,
    b: FontFeatures,
    c: FontFallbacks,
    d: FontFallbacks,
)
    ensures
        a@ == b@ <==> a.features@.len() == b.features@.len() && forall|i: int|
            #![trigger a.features@[i]]
            0 <= i < a.features@.len() ==> a.features@[i].tag@ == b.features@[i].tag@
                && a.features@[i].value == b.features@[i].value,
        c@ == d@ <==> c.families@.len() == d.families@.len() && forall|i: int|
            0 <= i < c.families@.len() ==> #[trigger] c.families@[i]@ == d.families@[i]@,
{
    let same_features = a.features@.len() == b.features@.len() && forall|i: int|
        #![trigger a.features@[i]]
        0 <= i < a.features@.len() ==> a.features@[i].tag@ == b.features@[i].tag@
            && a.features@[i].value == b.features@[i].value;
    if a@ == b@ {
        assert(a@.len() == b@.len());
        assert forall|i: int| #![trigger a.features@[i]] 0 <= i < a.features@.len() implies
            a.features@[i].tag@ == b.features@[i].tag@ && a.features@[i].value
            == b.features@[i].value by {
            assert(a@[i] == b@[i]);
        }
    }
    if same_features {
        assert(a@ =~= b@);
    }
    let same_families = c.families@.len() == d.families@.len() && forall|i: int|
        0 <= i < c.families@.len() ==> #[trigger] c.families@[i]@ == d.families@[i]@;
    if c@ == d@ {
        assert(c@.len() == d@.len());
        assert forall|i: int| 0 <= i < c.families@.len() implies #[trigger] c.families@[i]@
            == d.families@[i]@ by {
            assert(c@[i] == d@[i]);
        }
    }
    if same_families {
        assert(c@ =~= d@);
    }
}

} // verus!
