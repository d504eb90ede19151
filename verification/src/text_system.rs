//! The fonts that text is drawn with: which are loaded, and which of them a
//! description stands for.

use crate::font::{Font, FontId, FontKey, FontKeyView, FontStyle, FontView};
use crate::font_ids::FontIds;
use crate::font_names::insert_name;
use crate::vec_map::VecMap;
use vstd::hash_map::StringHashMap;
use vstd::prelude::*;
use vstd::string::StringExecFns;

verus! {

/// The trait bit of a bold font.
pub const CT_FONT_BOLD_TRAIT: u32 = 0x0000_0002;

/// The trait bit of an italic font.
pub const CT_FONT_ITALIC_TRAIT: u32 = 0x0000_0001;

/// A font as CoreText reports it. `F` is the type of a handle to it.
#[derive(Debug)]
pub struct CtFont<F> {
    pub ct_font: F,
    pub postscript_name: Option<String>,
    pub family_name: String,
    pub symbolic_traits: u32,
}

/// A font in the list of loaded fonts.
#[derive(Debug)]
pub struct LoadedFont<F> {
    pub ct_font: F,
    pub postscript_name: String,
    pub family_name: String,
    pub symbolic_traits: u32,
}

/// The contents of a [`LoadedFont`].
pub struct LoadedFontView<F> {
    pub ct_font: F,
    pub postscript_name: Seq<char>,
    pub family_name: Seq<char>,
    pub symbolic_traits: u32,
}

/// The data of a font, and the font that CoreText made of it, if any.
#[derive(Debug)]
pub struct FontFile<F> {
    pub data: Vec<u8>,
    pub font: Option<CtFont<F>>,
}

/// Why a font was not found.
#[derive(Clone, Debug, PartialEq, Eq)]
pub enum FontError {
    /// The family is known, but has no font.
    NoFontsFound { family: String },
    /// No font of the family is loaded, and the system has none either.
    FamilyNotFound { family: String },
}

impl FontError {
    /// The error in words.
    pub fn message(&self) -> (message: String)
        ensures
            message@ == match *self {
                FontError::NoFontsFound { family } => "no fonts found for family '"@ + family@
                    + "'"@,
                FontError::FamilyNotFound { family } => "font family '"@ + family@ + "' not found"@,
            },
    {
        match self {
            FontError::NoFontsFound { family } => {
                let mut message = "no fonts found for family '".to_owned();
                message.append(family.as_str());
                message.append("'");
                message
            },
            FontError::FamilyNotFound { family } => {
                let mut message = "font family '".to_owned();
                message.append(family.as_str());
                message.append("' not found");
                message
            },
        }
    }
}

impl<F> View for LoadedFont<F> {
    type V = LoadedFontView<F>;

    open spec fn view(&self) -> LoadedFontView<F> {
        LoadedFontView {
            ct_font: self.ct_font,
            postscript_name: self.postscript_name@,
            family_name: self.family_name@,
            symbolic_traits: self.symbolic_traits,
        }
    }
}

/// The entry of a font in the list of loaded fonts, where `unnamed` stands in
/// for a missing PostScript name.
pub open spec fn loaded_view<F>(font: CtFont<F>, unnamed: Seq<char>) -> LoadedFontView<F> {
    LoadedFontView {
        ct_font: font.ct_font,
        postscript_name: match font.postscript_name {
            Some(name) => name@,
            None => unnamed,
        },
        family_name: font.family_name@,
        symbolic_traits: font.symbolic_traits,
    }
}

/// The list of loaded fonts once the given files have been added: one entry
/// after the other, without the files that hold no font.
pub open spec fn fonts_after<F>(
    fonts: Seq<LoadedFontView<F>>,
    files: Seq<FontFile<F>>,
) -> Seq<LoadedFontView<F>>
    decreases files.len(),
{
    if files.len() == 0 {
        fonts
    } else {
        let before = fonts_after(fonts, files.drop_last());
        match files.last().font {
            Some(font) => before.push(loaded_view(font, Seq::empty())),
            None => before,
        }
    }
}

/// The data kept once the given files have been added: that of the files that
/// hold a font.
pub open spec fn font_data_after<F>(
    data: Seq<Seq<u8>>,
    files: Seq<FontFile<F>>,
) -> Seq<Seq<u8>>
    decreases files.len(),
{
    if files.len() == 0 {
        data
    } else {
        let before = font_data_after(data, files.drop_last());
        match files.last().font {
            Some(_) => before.push(files.last().data@),
            None => before,
        }
    }
}

/// Which font goes by which PostScript name: the last one loaded under it.
pub open spec fn ids_by_postscript_name<F>(fonts: Seq<LoadedFontView<F>>) -> Map<Seq<char>, FontId>
    decreases fonts.len(),
{
    if fonts.len() == 0 {
        Map::empty()
    } else {
        ids_by_postscript_name(fonts.drop_last()).insert(
            fonts.last().postscript_name,
            FontId((fonts.len() - 1) as usize),
        )
    }
}

/// Whether a font is of the given family. Upper and lower case of the letters A
/// to Z do not matter.
pub open spec fn in_family<F>(font: LoadedFontView<F>, family: Seq<char>) -> bool {
    crate::text::ascii_lowercase(font.family_name) == crate::text::ascii_lowercase(family)
}

/// The positions of the fonts of a family, in the order of loading.
pub open spec fn family_members<F>(
    fonts: Seq<LoadedFontView<F>>,
    family: Seq<char>,
) -> Seq<usize>
    decreases fonts.len(),
{
    if fonts.len() == 0 {
        Seq::empty()
    } else {
        let before = family_members(fonts.drop_last(), family);
        if in_family(fonts.last(), family) {
            before.push((fonts.len() - 1) as usize)
        } else {
            before
        }
    }
}

/// How badly a font with the given traits matches a description: a wrong weight
/// counts more than a wrong slant.
pub open spec fn font_penalty(symbolic_traits: u32, font: FontView) -> int {
    let weight: int = if (symbolic_traits & CT_FONT_BOLD_TRAIT != 0) == font.weight.at_least(700) {
        0
    } else {
        100
    };
    let style: int = if (symbolic_traits & CT_FONT_ITALIC_TRAIT != 0) == (font.style
        == FontStyle::Italic) {
        0
    } else {
        50
    };
    weight + style
}

/// How badly the candidate at position `i` matches a description.
pub open spec fn candidate_penalty<F>(
    fonts: Seq<LoadedFontView<F>>,
    candidates: Seq<usize>,
    font: FontView,
    i: int,
) -> int {
    font_penalty(fonts[candidates[i] as int].symbolic_traits, font)
}

/// Whether the candidate at position `i` is the first of those that match a
/// description best.
pub open spec fn best_at<F>(
    fonts: Seq<LoadedFontView<F>>,
    candidates: Seq<usize>,
    font: FontView,
    i: int,
) -> bool {
    &&& 0 <= i < candidates.len()
    &&& forall|j: int|
        0 <= j < candidates.len() ==> candidate_penalty(fonts, candidates, font, i)
            <= #[trigger] candidate_penalty(fonts, candidates, font, j)
    &&& forall|j: int|
        0 <= j < i ==> candidate_penalty(fonts, candidates, font, i)
            < #[trigger] candidate_penalty(fonts, candidates, font, j)
}

/// Whether `id` is the candidate to choose for a description.
pub open spec fn is_best<F>(
    fonts: Seq<LoadedFontView<F>>,
    candidates: Seq<usize>,
    font: FontView,
    id: FontId,
) -> bool {
    exists|i: int| #[trigger]
        best_at(fonts, candidates, font, i) && FontId(candidates[i]) == id
}

/// There is one candidate to choose, not several.
pub proof fn law_best_candidate_is_unique<F>(
    fonts: Seq<LoadedFontView<F>>,
    candidates: Seq<usize>,
    font: FontView,
    a: FontId,
    b: FontId,
)
    requires
        is_best(fonts, candidates, font, a),
        is_best(fonts, candidates, font, b),
    ensures
        a == b,
{
    let i = choose|i: int| #[trigger]
        best_at(fonts, candidates, font, i) && FontId(candidates[i]) == a;
    let j = choose|j: int| #[trigger]
        best_at(fonts, candidates, font, j) && FontId(candidates[j]) == b;
    let p = candidate_penalty(fonts, candidates, font, i);
    let q = candidate_penalty(fonts, candidates, font, j);
    assert(p == q);
}

/// How badly a font matches depends on its bold bit and its italic bit alone: the
/// wrong one of the first costs 100, the wrong one of the second 50. Bold is wanted
/// by weights from 700 on, italic by the italic style only.
pub proof fn law_only_bold_and_italic_bits_matter(traits: u32, font: FontView)
    ensures
        ({
            let bold = (traits / 2) % 2 == 1;
            let italic = traits % 2 == 1;
            let wants_bold = 0x442f_0000 <= font.weight.bits <= 0x7f80_0000;
            let wants_italic = font.style == FontStyle::Italic;
            &&& bold == wants_bold && italic == wants_italic ==> font_penalty(traits, font) == 0
            &&& bold == wants_bold && italic != wants_italic ==> font_penalty(traits, font) == 50
            &&& bold != wants_bold && italic == wants_italic ==> font_penalty(traits, font) == 100
            &&& bold != wants_bold && italic != wants_italic ==> font_penalty(traits, font) == 150
        }),
        font_penalty(traits, font) == font_penalty(traits % 4, font),
{
    crate::font::law_bold_starts_at_700(font.weight);
    assert(traits & 2 != 0 <==> (traits / 2) % 2 == 1) by (bit_vector);
    assert(traits & 1 != 0 <==> traits % 2 == 1) by (bit_vector);
    assert((traits % 4) & 2 == traits & 2 && (traits % 4) & 1 == traits & 1) by (bit_vector);
}

/// The font chosen has the wanted weight if any candidate has, and among those
/// equal in weight the wanted slant if any has; where candidates are equal in both,
/// the first of them is chosen.
pub proof fn law_choice_matches_weight_then_slant<F>(
    fonts: Seq<LoadedFontView<F>>,
    candidates: Seq<usize>,
    font: FontView,
    id: FontId,
)
    requires
        is_best(fonts, candidates, font, id),
    ensures
        ({
            let wants_bold = 0x442f_0000 <= font.weight.bits <= 0x7f80_0000;
            let wants_italic = font.style == FontStyle::Italic;
            let weight_fits = |i: int|
                ((fonts[candidates[i] as int].symbolic_traits / 2) % 2 == 1) == wants_bold;
            let slant_fits = |i: int|
                (fonts[candidates[i] as int].symbolic_traits % 2 == 1) == wants_italic;
            exists|i: int|
                #![trigger candidates[i]]
                {
                    &&& 0 <= i < candidates.len()
                    &&& candidates[i] == id.0
                    &&& forall|j: int|
                        #![trigger candidates[j]]
                        0 <= j < candidates.len() ==> {
                            &&& weight_fits(j) ==> weight_fits(i)
                            &&& weight_fits(j) == weight_fits(i) && slant_fits(j) ==> slant_fits(i)
                            &&& weight_fits(j) == weight_fits(i) && slant_fits(j) == slant_fits(i)
                                ==> i <= j
                        }
                }
        }),
{
    let i = choose|i: int| #[trigger]
        best_at(fonts, candidates, font, i) && FontId(candidates[i]) == id;
    law_only_bold_and_italic_bits_matter(fonts[candidates[i] as int].symbolic_traits, font);
    assert(candidates[i] == id.0);
    assert forall|j: int| #![trigger candidates[j]] 0 <= j < candidates.len() implies {
        let wants_bold = 0x442f_0000 <= font.weight.bits <= 0x7f80_0000;
        let wants_italic = font.style == FontStyle::Italic;
        let weight_fits = |k: int|
            ((fonts[candidates[k] as int].symbolic_traits / 2) % 2 == 1) == wants_bold;
        let slant_fits = |k: int|
            (fonts[candidates[k] as int].symbolic_traits % 2 == 1) == wants_italic;
        &&& weight_fits(j) ==> weight_fits(i)
        &&& weight_fits(j) == weight_fits(i) && slant_fits(j) ==> slant_fits(i)
        &&& weight_fits(j) == weight_fits(i) && slant_fits(j) == slant_fits(i) ==> i <= j
    } by {
        law_only_bold_and_italic_bits_matter(fonts[candidates[j] as int].symbolic_traits, font);
        let p = candidate_penalty(fonts, candidates, font, i);
        let q = candidate_penalty(fonts, candidates, font, j);
        assert(p <= q);
    }
}

/// Names of families are compared letter by letter: two letters agree where they
/// are the same, or the same one of A to Z in upper and in lower case.
pub proof fn law_family_names_are_compared_letter_by_letter<F>(
    font: LoadedFontView<F>,
    family: Seq<char>,
)
    ensures
        in_family(font, family) <==> font.family_name.len() == family.len() && forall|i: int|
            #![trigger family[i]]
            0 <= i < family.len() ==> {
                let (a, b) = (font.family_name[i] as u32, family[i] as u32);
                ||| a == b
                ||| 0x41 <= a <= 0x5a && b == a + 32
                ||| 0x41 <= b <= 0x5a && a == b + 32
            },
{
    let (s, t) = (font.family_name, family);
    let (x, y) = (crate::text::ascii_lowercase(s), crate::text::ascii_lowercase(t));
    assert forall|i: int| #![trigger t[i]] 0 <= i < t.len() && s.len() == t.len() implies (x[i]
        == y[i]) == {
        let (a, b) = (s[i] as u32, t[i] as u32);
        ||| a == b
        ||| 0x41 <= a <= 0x5a && b == a + 32
        ||| 0x41 <= b <= 0x5a && a == b + 32
    } by {
        crate::text::law_ascii_lowercase_moves_letters(s, i);
        crate::text::law_ascii_lowercase_moves_letters(t, i);
    }
    if in_family(font, family) {
        assert(x.len() == y.len());
        assert forall|i: int| #![trigger t[i]] 0 <= i < t.len() implies x[i] == y[i] by {
        }
    }
    if s.len() == t.len() && forall|i: int|
        #![trigger t[i]]
        0 <= i < t.len() ==> {
            let (a, b) = (s[i] as u32, t[i] as u32);
            ||| a == b
            ||| 0x41 <= a <= 0x5a && b == a + 32
            ||| 0x41 <= b <= 0x5a && a == b + 32
        } {
        assert forall|i: int| 0 <= i < x.len() implies x[i] == y[i] by {
            assert(t[i] == t[i]);
        }
        assert(x =~= y);
    }
}

/// A loaded font is what CoreText reported, under its own PostScript name if it
/// has one and else under the one that stands in.
pub proof fn law_loaded_fonts_are_what_was_reported<F>(font: CtFont<F>, unnamed: Seq<char>)
    ensures
        loaded_view(font, unnamed).ct_font == font.ct_font,
        loaded_view(font, unnamed).family_name == font.family_name@,
        loaded_view(font, unnamed).symbolic_traits == font.symbolic_traits,
        font.postscript_name is Some ==> loaded_view(font, unnamed).postscript_name
            == font.postscript_name->0@,
        font.postscript_name is None ==> loaded_view(font, unnamed).postscript_name == unnamed,
{
}

/// What is said of a loaded font is what its entry holds.
pub proof fn law_entries_hold_what_they_say<F>(font: LoadedFont<F>)
    ensures
        font@.ct_font == font.ct_font,
        font@.postscript_name == font.postscript_name@,
        font@.family_name == font.family_name@,
        font@.symbolic_traits == font.symbolic_traits,
{
}

/// Adding files appends the font of every file that has one, in the order of the
/// files, and keeps the data of just these; a font without a PostScript name has
/// the empty one.
pub proof fn law_every_file_with_a_font_is_added<F>(
    fonts: Seq<LoadedFontView<F>>,
    data: Seq<Seq<u8>>,
    files: Seq<FontFile<F>>,
)
    ensures
        fonts_after(fonts, files) == fonts + files.filter(
            |file: FontFile<F>| file.font is Some,
        ).map_values(|file: FontFile<F>| loaded_view(file.font->0, Seq::<char>::empty())),
        font_data_after(data, files) == data + files.filter(
            |file: FontFile<F>| file.font is Some,
        ).map_values(|file: FontFile<F>| file.data@),
    decreases files.len(),
{
    reveal(Seq::filter);
    let has_font = |file: FontFile<F>| file.font is Some;
    let entry = |file: FontFile<F>| loaded_view(file.font->0, Seq::<char>::empty());
    let bytes = |file: FontFile<F>| file.data@;
    if files.len() > 0 {
        let rest = files.drop_last();
        law_every_file_with_a_font_is_added(fonts, data, rest);
        if has_font(files.last()) {
            let kept = rest.filter(has_font);
            assert(kept.push(files.last()).map_values(entry) =~= kept.map_values(entry).push(
                entry(files.last()),
            ));
            assert(kept.push(files.last()).map_values(bytes) =~= kept.map_values(bytes).push(
                bytes(files.last()),
            ));
            assert(fonts_after(fonts, files) =~= fonts + files.filter(has_font).map_values(entry));
            assert(font_data_after(data, files) =~= data + files.filter(has_font).map_values(
                bytes,
            ));
        }
    } else {
        assert(files.filter(has_font).map_values(entry) =~= Seq::<LoadedFontView<F>>::empty());
        assert(files.filter(has_font).map_values(bytes) =~= Seq::<Seq<u8>>::empty());
        assert(fonts_after(fonts, files) =~= fonts + files.filter(has_font).map_values(entry));
        assert(font_data_after(data, files) =~= data + files.filter(has_font).map_values(bytes));
    }
}

/// Loading fonts leaves the positions of the fonts loaded before as they were.
pub proof fn law_font_ids_are_stable<F>(fonts: Seq<LoadedFontView<F>>, files: Seq<FontFile<F>>)
    ensures
        fonts.is_prefix_of(fonts_after(fonts, files)),
    decreases files.len(),
{
    if files.len() > 0 {
        law_font_ids_are_stable(fonts, files.drop_last());
    }
}

/// A PostScript name that some font has leads to the last font of that name;
/// any other name leads nowhere.
pub proof fn law_postscript_name_leads_to_last_font<F>(
    fonts: Seq<LoadedFontView<F>>,
    name: Seq<char>,
)
    requires
        fonts.len() <= usize::MAX,
    ensures
        ids_by_postscript_name(fonts).dom().contains(name) <==> exists|i: int|
            0 <= i < fonts.len() && #[trigger] fonts[i].postscript_name == name,
        ids_by_postscript_name(fonts).dom().contains(name) ==> {
            let id = ids_by_postscript_name(fonts)[name];
            &&& id.0 < fonts.len()
            &&& fonts[id.0 as int].postscript_name == name
            &&& forall|i: int|
                id.0 < i < fonts.len() ==> #[trigger] fonts[i].postscript_name != name
        },
    decreases fonts.len(),
{
    if fonts.len() > 0 {
        let rest = fonts.drop_last();
        law_postscript_name_leads_to_last_font(rest, name);
        let last = fonts.len() - 1;
        if fonts[last].postscript_name != name && ids_by_postscript_name(rest).dom().contains(
            name,
        ) {
            let id = ids_by_postscript_name(rest)[name];
            assert(rest[id.0 as int].postscript_name == name);
            assert forall|i: int| id.0 < i < fonts.len() implies #[trigger] fonts[i].postscript_name
                != name by {
                if i < last {
                    assert(rest[i].postscript_name != name);
                }
            }
        }
        assert forall|i: int|
            0 <= i < fonts.len() && #[trigger] fonts[i].postscript_name
                == name implies ids_by_postscript_name(fonts).dom().contains(name) by {
            if i < last {
                assert(rest[i].postscript_name == name);
            }
        }
    }
}

/// The members of a family are loaded fonts of it, in the order of loading, and
/// none is left out.
pub proof fn law_family_members_are_exact<F>(fonts: Seq<LoadedFontView<F>>, family: Seq<char>)
    requires
        fonts.len() <= usize::MAX,
    ensures
        forall|i: int|
            0 <= i < family_members(fonts, family).len() ==> {
                &&& (#[trigger] family_members(fonts, family)[i]) < fonts.len()
                &&& in_family(fonts[family_members(fonts, family)[i] as int], family)
            },
        forall|i: int, j: int|
            0 <= i < j < family_members(fonts, family).len() ==> (#[trigger] family_members(
                fonts,
                family,
            )[i]) < (#[trigger] family_members(fonts, family)[j]),
        forall|id: usize|
            id < fonts.len() && in_family(fonts[id as int], family) ==> #[trigger] family_members(
                fonts,
                family,
            ).contains(id),
    decreases fonts.len(),
{
    if fonts.len() > 0 {
        let rest = fonts.drop_last();
        law_family_members_are_exact(rest, family);
        let before = family_members(rest, family);
        let members = family_members(fonts, family);
        assert forall|id: usize|
            id < fonts.len() && in_family(
                fonts[id as int],
                family,
            ) implies #[trigger] members.contains(id) by {
            if id < rest.len() {
                assert(rest[id as int] == fonts[id as int]);
                assert(before.contains(id));
                let k = choose|k: int| 0 <= k < before.len() && before[k] == id;
                assert(members[k] == id);
            } else {
                assert(members[members.len() - 1] == id);
            }
        }
    }
}

/// A choice stays the choice while fonts are added to the list.
proof fn lemma_best_extends<F>(
    fonts: Seq<LoadedFontView<F>>,
    more: Seq<LoadedFontView<F>>,
    candidates: Seq<usize>,
    font: FontView,
    id: FontId,
)
    requires
        fonts.is_prefix_of(more),
        forall|i: int| 0 <= i < candidates.len() ==> #[trigger] candidates[i] < fonts.len(),
        is_best(fonts, candidates, font, id),
    ensures
        is_best(more, candidates, font, id),
{
    assert forall|i: int| 0 <= i < candidates.len() implies #[trigger] candidate_penalty(
        more,
        candidates,
        font,
        i,
    ) == candidate_penalty(fonts, candidates, font, i) by {
        assert(more[candidates[i] as int] == fonts[candidates[i] as int]);
    }
    let i = choose|i: int| #[trigger]
        best_at(fonts, candidates, font, i) && FontId(candidates[i]) == id;
    assert(best_at(more, candidates, font, i));
}

/// The text system: the loaded fonts, and what has been found out about them.
///
/// Descriptions are resolved in two steps. A family that has been asked for
/// before, or of which a font is loaded, is found here; any other has to be
/// asked of the system first (see [`IosTextSystem::must_load_family`]).
pub struct IosTextSystem<F> {
    /// The loaded fonts. A [`FontId`] is a position in this list.
    fonts: Vec<LoadedFont<F>>,
    /// The fonts that descriptions have been resolved to.
    font_selections: VecMap<Font, FontId>,
    /// The fonts by PostScript name.
    font_ids_by_postscript_name: StringHashMap<FontId>,
    /// The fonts of the families that have been asked for.
    font_ids_by_family: VecMap<FontKey, FontIds>,
    /// The data of the fonts that were added.
    registered_font_data: Vec<Vec<u8>>,
}

impl<F> IosTextSystem<F> {
    /// The loaded fonts.
    pub closed spec fn fonts(&self) -> Seq<LoadedFontView<F>> {
        self.fonts@.map_values(|font: LoadedFont<F>| font@)
    }

    /// The fonts that descriptions have been resolved to.
    pub closed spec fn selections(&self) -> Map<FontView, FontId> {
        self.font_selections@
    }

    /// The fonts by PostScript name.
    pub closed spec fn by_postscript_name(&self) -> Map<Seq<char>, FontId> {
        self.font_ids_by_postscript_name@
    }

    /// The fonts of the families that have been asked for.
    pub closed spec fn families(&self) -> Map<FontKeyView, Seq<usize>> {
        self.font_ids_by_family@.map_values(|ids: FontIds| ids@)
    }

    /// The data of the fonts that were added.
    pub closed spec fn font_data(&self) -> Seq<Seq<u8>> {
        self.registered_font_data@.map_values(|data: Vec<u8>| data@)
    }

    /// What holds at all times.
    pub closed spec fn wf(&self) -> bool {
        &&& self.font_selections.wf()
        &&& self.font_ids_by_family.wf()
        &&& self.names_agree()
        &&& self.families_are_known()
        &&& self.selections_are_best()
    }

    /// Every PostScript name leads to the last font loaded under it.
    pub open spec fn names_agree(&self) -> bool {
        self.by_postscript_name() == ids_by_postscript_name(self.fonts())
    }

    /// Every family that has been asked for has fonts, and they are loaded.
    pub open spec fn families_are_known(&self) -> bool {
        forall|key: FontKeyView| #[trigger]
            self.families().dom().contains(key) ==> {
                &&& self.families()[key].len() > 0
                &&& forall|i: int|
                    0 <= i < self.families()[key].len() ==> #[trigger] self.families()[key][i]
                        < self.fonts().len()
            }
    }

    /// Every description that has been resolved leads to the font that would be
    /// chosen for it now.
    pub open spec fn selections_are_best(&self) -> bool {
        forall|font: FontView| #[trigger]
            self.selections().dom().contains(font) ==> {
                &&& self.families().dom().contains(font.key)
                &&& is_best(
                    self.fonts(),
                    self.families()[font.key],
                    font,
                    self.selections()[font],
                )
            }
    }

    /// Whether the system has to be asked for the family of a description: it
    /// has not been asked for before, and no font of it is loaded.
    pub open spec fn lacks_family(&self, font: FontView) -> bool {
        !self.families().dom().contains(font.key) && family_members(
            self.fonts(),
            font.key.family,
        ).len() == 0
    }

    /// The fonts to choose from for a description, where the system has been
    /// asked for the family if it had to be, and has it.
    pub open spec fn candidates(&self, font: FontView) -> Seq<usize> {
        if self.families().dom().contains(font.key) {
            self.families()[font.key]
        } else if self.lacks_family(font) {
            seq![self.fonts().len() as usize]
        } else {
            family_members(self.fonts(), font.key.family)
        }
    }

    /// Makes a text system without fonts.
    pub fn new() -> (system: IosTextSystem<F>)
        ensures
            system.wf(),
            system.fonts() == Seq::<LoadedFontView<F>>::empty(),
            system.selections() == Map::<FontView, FontId>::empty(),
            system.families() == Map::<FontKeyView, Seq<usize>>::empty(),
            system.font_data() == Seq::<Seq<u8>>::empty(),
    {
        let system = IosTextSystem {
            fonts: Vec::new(),
            font_selections: VecMap::new(),
            font_ids_by_postscript_name: StringHashMap::new(),
            font_ids_by_family: VecMap::new(),
            registered_font_data: Vec::new(),
        };
        assert(system.fonts() =~= Seq::<LoadedFontView<F>>::empty());
        assert(system.families() =~= Map::<FontKeyView, Seq<usize>>::empty());
        assert(system.font_data() =~= Seq::<Seq<u8>>::empty());
        system
    }

    /// Appends a font to the list, and returns its position.
    fn push_font(&mut self, font: CtFont<F>, unnamed: String) -> (id: usize)
        requires
            old(self).wf(),
        ensures
            final(self).wf(),
            id == old(self).fonts().len(),
            final(self).fonts() == old(self).fonts().push(loaded_view(font, unnamed@)),
            final(self).selections() == old(self).selections(),
            final(self).families() == old(self).families(),
            final(self).font_data() == old(self).font_data(),
    {
        let ghost before = *self;
        let postscript_name = match font.postscript_name {
            Some(name) => name,
            None => unnamed,
        };
        let id: usize = self.fonts.len();
        self.font_ids_by_postscript_name.insert(postscript_name.clone(), FontId(id));
        self.fonts.push(
            LoadedFont {
                ct_font: font.ct_font,
                postscript_name,
                family_name: font.family_name,
                symbolic_traits: font.symbolic_traits,
            },
        );
        proof {
            let after = *self;
            assert(after.fonts() =~= before.fonts().push(loaded_view(font, unnamed@)));
            assert(after.fonts().drop_last() =~= before.fonts());
            before.lemma_selections_extend(&after);
        }
        id
    }

    /// What is known of the loaded fonts holds on when fonts are appended.
    proof fn lemma_selections_extend(&self, after: &IosTextSystem<F>)
        requires
            self.wf(),
            self.fonts().is_prefix_of(after.fonts()),
            after.families() == self.families(),
            after.selections() == self.selections(),
        ensures
            after.families_are_known(),
            after.selections_are_best(),
    {
        assert forall|font: FontView| #[trigger]
            after.selections().dom().contains(font) implies is_best(
            after.fonts(),
            after.families()[font.key],
            font,
            after.selections()[font],
        ) by {
            assert(self.selections().dom().contains(font));
            assert(self.families().dom().contains(font.key));
            lemma_best_extends(
                self.fonts(),
                after.fonts(),
                self.families()[font.key],
                font,
                self.selections()[font],
            );
        }
        self.lemma_families_stay_known(after);
    }

    /// Families stay known when fonts are appended, and families of loaded fonts
    /// remembered.
    proof fn lemma_families_stay_known(&self, after: &IosTextSystem<F>)
        requires
            self.families_are_known(),
            self.fonts().len() <= after.fonts().len(),
            forall|key: FontKeyView| #[trigger]
                after.families().dom().contains(key) ==> {
                    ||| self.families().dom().contains(key) && after.families()[key]
                        == self.families()[key]
                    ||| after.families()[key].len() > 0 && forall|i: int|
                        0 <= i < after.families()[key].len() ==> #[trigger] after.families()[key][i]
                            < after.fonts().len()
                },
        ensures
            after.families_are_known(),
    {
    }

    /// Adds fonts from their data. A file of which CoreText made no font is
    /// passed over.
    pub fn add_fonts(&mut self, files: Vec<FontFile<F>>)
        requires
            old(self).wf(),
        ensures
            final(self).wf(),
            final(self).fonts() == fonts_after(old(self).fonts(), files@),
            final(self).font_data() == font_data_after(old(self).font_data(), files@),
            final(self).selections() == old(self).selections(),
            final(self).families() == old(self).families(),
    {
        let ghost before = *self;
        for file in it: files
            invariant
                self.wf(),
                it.seq() == files@,
                self.fonts() == fonts_after(before.fonts(), files@.take(it.index() as int)),
                self.font_data() == font_data_after(
                    before.font_data(),
                    files@.take(it.index() as int),
                ),
                self.selections() == before.selections(),
                self.families() == before.families(),
        {
            let ghost n = it.index() as int;
            assert(files@.take(n + 1).drop_last() =~= files@.take(n));
            assert(files@.take(n + 1).last() == file);
            match file.font {
                None => {},
                Some(font) => {
                    self.push_font(font, String::new());
                    let ghost middle = *self;
                    self.registered_font_data.push(file.data);
                    proof {
                        assert(self.font_data() =~= middle.font_data().push(file.data@));
                        assert(self.fonts() == middle.fonts());
                        middle.lemma_selections_extend(self);
                    }
                },
            }
        }
        assert(files@.take(files@.len() as int) =~= files@);
    }
}

impl<F> Default for IosTextSystem<F> {
    /// Makes a text system without fonts.
    fn default() -> (system: IosTextSystem<F>)
        ensures
            system.wf(),
            system.fonts() == Seq::<LoadedFontView<F>>::empty(),
            system.selections() == Map::<FontView, FontId>::empty(),
            system.families() == Map::<FontKeyView, Seq<usize>>::empty(),
            system.font_data() == Seq::<Seq<u8>>::empty(),
    {
        IosTextSystem::new()
    }
}

impl<F> IosTextSystem<F> {
    /// The fonts of the given family among those loaded.
    fn members(&self, family: &str) -> (ids: FontIds)
        ensures
            ids@ == family_members(self.fonts(), family@),
    {
        let mut ids = FontIds::new();
        let mut i: usize = 0;
        assert(self.fonts().take(0) =~= Seq::<LoadedFontView<F>>::empty());
        while i < self.fonts.len()
            invariant
                i <= self.fonts.len(),
                ids@ == family_members(self.fonts().take(i as int), family@),
            decreases self.fonts.len() - i,
        {
            assert(self.fonts().take(i + 1).drop_last() =~= self.fonts().take(i as int));
            assert(self.fonts().take(i + 1).last() == self.fonts@[i as int]@);
            if self.fonts[i].family_name.as_str().eq_ignore_ascii_case(family) {
                ids.push(i);
            }
            i = i + 1;
        }
        assert(self.fonts().take(i as int) =~= self.fonts());
        ids
    }

    /// Whether the system has to be asked for the family of a description
    /// before that can be resolved.
    pub fn must_load_family(&self, font: &Font) -> (must: bool)
        requires
            self.wf(),
        ensures
            must == self.lacks_family(font@),
    {
        match self.font_ids_by_family.get(&font.key()) {
            Some(_) => false,
            None => self.members(font.family.as_str()).is_empty(),
        }
    }

    /// Finds the fonts of a family: those loaded or, where there are none, the
    /// font `loaded` that the system has for the family, which is appended to
    /// the list.
    pub fn load_family(&mut self, family: &str, loaded: Option<CtFont<F>>) -> (ids: Result<
        FontIds,
        FontError,
    >)
        requires
            old(self).wf(),
        ensures
            final(self).wf(),
            match ids {
                Ok(list) => if family_members(old(self).fonts(), family@).len() > 0 {
                    &&& list@ == family_members(old(self).fonts(), family@)
                    &&& final(self).fonts() == old(self).fonts()
                } else {
                    &&& loaded is Some
                    &&& list@ == seq![old(self).fonts().len() as usize]
                    &&& final(self).fonts() == old(self).fonts().push(
                        loaded_view(loaded->0, family@),
                    )
                },
                Err(error) => {
                    &&& family_members(old(self).fonts(), family@).len() == 0
                    &&& loaded is None
                    &&& error is FamilyNotFound
                    &&& error->FamilyNotFound_family@ == family@
                    &&& final(self).fonts() == old(self).fonts()
                },
            },
            final(self).selections() == old(self).selections(),
            final(self).families() == old(self).families(),
            final(self).font_data() == old(self).font_data(),
    {
        let mut ids = self.members(family);
        if !ids.is_empty() {
            return Ok(ids);
        }
        match loaded {
            None => Err(FontError::FamilyNotFound { family: family.to_owned() }),
            Some(font) => {
                let id = self.push_font(font, family.to_owned());
                ids.push(id);
                assert(ids@ =~= seq![old(self).fonts().len() as usize]);
                Ok(ids)
            },
        }
    }

    /// How badly a loaded font matches a description.
    fn penalty(&self, id: usize, font: &Font) -> (penalty: u32)
        requires
            id < self.fonts().len(),
        ensures
            penalty == font_penalty(self.fonts()[id as int].symbolic_traits, font@),
    {
        let symbolic = self.fonts[id].symbolic_traits;
        let is_bold = symbolic & CT_FONT_BOLD_TRAIT != 0;
        let is_italic = symbolic & CT_FONT_ITALIC_TRAIT != 0;
        let weight_penalty: u32 = if is_bold == font.weight.is_bold() {
            0
        } else {
            100
        };
        let style_penalty: u32 = if is_italic == (font.style == FontStyle::Italic) {
            0
        } else {
            50
        };
        weight_penalty + style_penalty
    }

    /// Chooses among the candidates for a description: the first of those that
    /// match its weight and slant best.
    pub fn select_font(&self, font: &Font, candidates: &FontIds) -> (id: Result<FontId, FontError>)
        requires
            forall|i: int|
                0 <= i < candidates@.len() ==> #[trigger] candidates@[i] < self.fonts().len(),
        ensures
            match id {
                Ok(best) => is_best(self.fonts(), candidates@, font@, best),
                Err(error) => {
                    &&& candidates@.len() == 0
                    &&& error is NoFontsFound
                    &&& error->NoFontsFound_family@ == font.family@
                },
            },
    {
        if candidates.is_empty() {
            return Err(FontError::NoFontsFound { family: font.family.clone() });
        }
        assert(candidates@[0] < self.fonts().len());
        let mut best: usize = 0;
        let mut least: u32 = self.penalty(candidates.at(0), font);
        let len: usize = candidates.len();
        let mut i: usize = 1;
        while i < len
            invariant
                best < i <= len,
                len == candidates@.len(),
                forall|j: int|
                    0 <= j < candidates@.len() ==> #[trigger] candidates@[j] < self.fonts().len(),
                least == candidate_penalty(self.fonts(), candidates@, font@, best as int),
                forall|j: int|
                    0 <= j < i ==> least <= #[trigger] candidate_penalty(
                        self.fonts(),
                        candidates@,
                        font@,
                        j,
                    ),
                forall|j: int|
                    0 <= j < best ==> least < #[trigger] candidate_penalty(
                        self.fonts(),
                        candidates@,
                        font@,
                        j,
                    ),
            decreases len - i,
        {
            let penalty: u32 = self.penalty(candidates.at(i), font);
            assert(penalty == candidate_penalty(self.fonts(), candidates@, font@, i as int));
            if penalty < least {
                best = i;
                least = penalty;
            }
            i = i + 1;
        }
        assert(best_at(self.fonts(), candidates@, font@, best as int));
        Ok(FontId(candidates.at(best)))
    }

    /// The font that a description was resolved to before, if it was.
    pub fn selected_font(&self, font: &Font) -> (id: Option<FontId>)
        requires
            self.wf(),
        ensures
            match id {
                Some(known) => self.selections().dom().contains(font@) && self.selections()[font@]
                    == known,
                None => !self.selections().dom().contains(font@),
            },
    {
        match self.font_selections.get(font) {
            Some(id) => Some(*id),
            None => None,
        }
    }

    /// Resolves a description to a font, and remembers the outcome. `loaded` is
    /// the font that the system has for the family, and is looked at only where
    /// the system has to be asked (see [`IosTextSystem::must_load_family`]).
    pub fn resolve_font(&mut self, font: &Font, loaded: Option<CtFont<F>>) -> (id: Result<
        FontId,
        FontError,
    >)
        requires
            old(self).wf(),
        ensures
            final(self).wf(),
            final(self).font_data() == old(self).font_data(),
            match id {
                Ok(best) => {
                    &&& old(self).lacks_family(font@) ==> loaded is Some
                    &&& final(self).fonts() == if old(self).lacks_family(font@) {
                        old(self).fonts().push(loaded_view(loaded->0, font.family@))
                    } else {
                        old(self).fonts()
                    }
                    &&& is_best(final(self).fonts(), old(self).candidates(font@), font@, best)
                    &&& final(self).families() == old(self).families().insert(
                        font@.key,
                        old(self).candidates(font@),
                    )
                    &&& final(self).selections() == old(self).selections().insert(font@, best)
                },
                Err(error) => {
                    &&& old(self).lacks_family(font@)
                    &&& loaded is None
                    &&& error is FamilyNotFound
                    &&& error->FamilyNotFound_family@ == font.family@
                    &&& final(self).fonts() == old(self).fonts()
                    &&& final(self).families() == old(self).families()
                    &&& final(self).selections() == old(self).selections()
                },
            },
    {
        let ghost before = *self;
        let key = font.key();
        let known = match self.font_ids_by_family.get(&key) {
            Some(ids) => Some(ids.duplicate()),
            None => None,
        };
        let candidates = match known {
            Some(ids) => ids,
            None => match self.load_family(font.family.as_str(), loaded) {
                Ok(ids) => {
                    let ghost middle = *self;
                    self.font_ids_by_family.insert(key, ids.duplicate());
                    proof {
                        assert(self.families() =~= middle.families().insert(font@.key, ids@));
                        assert(before.fonts().len() == before.fonts.len());
                        law_family_members_are_exact(before.fonts(), font.family@);
                        middle.lemma_family_added(self, font@.key, ids@);
                    }
                    ids
                },
                Err(error) => return Err(error),
            },
        };
        let ghost middle = *self;
        assert(candidates@ == before.candidates(font@));
        assert(middle.families().dom().contains(font@.key));
        assert(middle.families()[font@.key] == candidates@);
        let best = match self.select_font(font, &candidates) {
            Ok(id) => id,
            Err(error) => return Err(error),
        };
        self.font_selections.insert(font.duplicate(), best);
        proof {
            assert(self.fonts() == middle.fonts());
            assert(self.families() == middle.families());
            assert(self.families() =~= before.families().insert(font@.key, candidates@));
            assert forall|f: FontView| #[trigger]
                self.selections().dom().contains(f) implies self.families().dom().contains(f.key)
                && is_best(self.fonts(), self.families()[f.key], f, self.selections()[f]) by {
                if f != font@ {
                    assert(middle.selections().dom().contains(f));
                }
            }
            middle.lemma_families_stay_known(self);
        }
        Ok(best)
    }

    /// The font for a description: the one it was resolved to before or, where it
    /// was not, what resolving it gives (see [`IosTextSystem::resolve_font`]).
    pub fn font_id(&mut self, font: &Font, loaded: Option<CtFont<F>>) -> (id: Result<
        FontId,
        FontError,
    >)
        requires
            old(self).wf(),
        ensures
            final(self).wf(),
            final(self).font_data() == old(self).font_data(),
            match id {
                Ok(best) => if old(self).selections().dom().contains(font@) {
                    &&& best == old(self).selections()[font@]
                    &&& final(self).fonts() == old(self).fonts()
                    &&& final(self).families() == old(self).families()
                    &&& final(self).selections() == old(self).selections()
                } else {
                    &&& old(self).lacks_family(font@) ==> loaded is Some
                    &&& final(self).fonts() == if old(self).lacks_family(font@) {
                        old(self).fonts().push(loaded_view(loaded->0, font.family@))
                    } else {
                        old(self).fonts()
                    }
                    &&& is_best(final(self).fonts(), old(self).candidates(font@), font@, best)
                    &&& final(self).families() == old(self).families().insert(
                        font@.key,
                        old(self).candidates(font@),
                    )
                    &&& final(self).selections() == old(self).selections().insert(font@, best)
                },
                Err(error) => {
                    &&& old(self).lacks_family(font@)
                    &&& loaded is None
                    &&& error is FamilyNotFound
                    &&& error->FamilyNotFound_family@ == font.family@
                    &&& final(self).fonts() == old(self).fonts()
                    &&& final(self).families() == old(self).families()
                    &&& final(self).selections() == old(self).selections()
                },
            },
    {
        match self.selected_font(font) {
            Some(id) => Ok(id),
            None => self.resolve_font(font, loaded),
        }
    }

    /// What is known holds on when a new family is remembered.
    proof fn lemma_family_added(&self, after: &IosTextSystem<F>, key: FontKeyView, ids: Seq<usize>)
        requires
            self.wf(),
            !self.families().dom().contains(key),
            after.fonts() == self.fonts(),
            after.selections() == self.selections(),
            after.families() == self.families().insert(key, ids),
            ids.len() > 0,
            forall|i: int| 0 <= i < ids.len() ==> #[trigger] ids[i] < self.fonts().len(),
        ensures
            after.families_are_known(),
            after.selections_are_best(),
    {
        assert forall|font: FontView| #[trigger]
            after.selections().dom().contains(font) implies after.families().dom().contains(
            font.key,
        ) && is_best(
            after.fonts(),
            after.families()[font.key],
            font,
            after.selections()[font],
        ) by {
            assert(self.selections().dom().contains(font));
        }
        self.lemma_families_stay_known(after);
    }

    /// What has been remembered is never out of date: names lead to the last
    /// font loaded under them, families have loaded fonts, and a description
    /// leads to the font that would be chosen for it now. There are never more fonts
    /// than positions.
    pub proof fn law_memory_is_current(&self)
        requires
            self.wf(),
        ensures
            self.names_agree(),
            self.families_are_known(),
            self.selections_are_best(),
            self.fonts().len() <= usize::MAX,
    {
        assert(self.fonts().len() == self.fonts.len());
    }

    /// The candidates for a description are the fonts remembered for its family,
    /// features and fallbacks, if any are. Otherwise they are all loaded fonts of
    /// the family, in the order of loading; where there are none, the system has to
    /// be asked, and its font, which comes next in the list, is the only candidate.
    pub proof fn law_candidates_are_the_fonts_of_the_family(&self, font: FontView)
        requires
            self.wf(),
        ensures
            ({
                let known = self.families().dom().contains(font.key);
                let loaded = exists|i: int|
                    0 <= i < self.fonts().len() && in_family(
                        #[trigger] self.fonts()[i],
                        font.key.family,
                    );
                let candidates = self.candidates(font);
                &&& self.lacks_family(font) <==> !known && !loaded
                &&& known ==> candidates == self.families()[font.key]
                &&& !known && !loaded ==> candidates.len() == 1 && candidates[0]
                    == self.fonts().len() as usize
                &&& !known && loaded ==> {
                    &&& forall|id: usize| #[trigger]
                        candidates.contains(id) <==> id < self.fonts().len() && in_family(
                            self.fonts()[id as int],
                            font.key.family,
                        )
                    &&& forall|i: int, j: int|
                        0 <= i < j < candidates.len() ==> #[trigger] candidates[i]
                            < #[trigger] candidates[j]
                }
            }),
    {
        self.law_memory_is_current();
        law_family_members_are_exact(self.fonts(), font.key.family);
        let members = family_members(self.fonts(), font.key.family);
        assert(members.len() > 0 <==> exists|i: int|
            0 <= i < self.fonts().len() && in_family(
                #[trigger] self.fonts()[i],
                font.key.family,
            )) by {
            if members.len() > 0 {
                assert(in_family(self.fonts()[members[0] as int], font.key.family));
            }
            if exists|i: int|
                0 <= i < self.fonts().len() && in_family(
                    #[trigger] self.fonts()[i],
                    font.key.family,
                ) {
                let i = choose|i: int|
                    0 <= i < self.fonts().len() && in_family(
                        #[trigger] self.fonts()[i],
                        font.key.family,
                    );
                assert(members.contains(i as usize));
            }
        }
    }

    /// Resolving a description again gives the same font.
    pub proof fn law_resolving_again_gives_the_same(&self, font: FontView, again: FontId)
        requires
            self.wf(),
            self.selections().dom().contains(font),
            is_best(self.fonts(), self.candidates(font), font, again),
        ensures
            again == self.selections()[font],
    {
        law_best_candidate_is_unique(
            self.fonts(),
            self.families()[font.key],
            font,
            self.selections()[font],
            again,
        );
    }
}

/// Whether some font descriptor has the given family name.
pub open spec fn names_a_family(descriptors: Seq<Option<String>>, name: Seq<char>) -> bool {
    exists|i: int| #![trigger descriptors[i]]
        0 <= i < descriptors.len() && descriptors[i] is Some && descriptors[i]->0@ == name
}

/// Whether some loaded font has the given PostScript name.
pub open spec fn names_a_font<F>(fonts: Seq<LoadedFontView<F>>, name: Seq<char>) -> bool {
    exists|i: int| 0 <= i < fonts.len() && #[trigger] fonts[i].postscript_name == name
}

impl<F> IosTextSystem<F> {
    /// The names of all fonts: the family names of the system's font
    /// descriptors, where they have one, and the PostScript names of the loaded
    /// fonts. The list is sorted, and no name occurs twice.
    pub fn all_font_names(&self, descriptors: &Vec<Option<String>>) -> (names: Vec<String>)
        ensures
            crate::font_names::strictly_sorted(crate::font_names::contents(names@)),
            forall|name: Seq<char>| #[trigger]
                crate::font_names::contents(names@).contains(name) <==> names_a_family(
                    descriptors@,
                    name,
                ) || names_a_font(self.fonts(), name),
    {
        let mut names: Vec<String> = Vec::new();
        let mut i: usize = 0;
        while i < descriptors.len()
            invariant
                i <= descriptors.len(),
                crate::font_names::strictly_sorted(crate::font_names::contents(names@)),
                forall|name: Seq<char>| #[trigger]
                    crate::font_names::contents(names@).contains(name) <==> names_a_family(
                        descriptors@.take(i as int),
                        name,
                    ),
            decreases descriptors.len() - i,
        {
            proof {
                lemma_family_named(descriptors@, i as int);
            }
            match &descriptors[i] {
                Some(name) => insert_name(&mut names, name.clone()),
                None => {},
            }
            i = i + 1;
        }
        assert(descriptors@.take(i as int) =~= descriptors@);
        let mut k: usize = 0;
        while k < self.fonts.len()
            invariant
                k <= self.fonts.len(),
                crate::font_names::strictly_sorted(crate::font_names::contents(names@)),
                forall|name: Seq<char>| #[trigger]
                    crate::font_names::contents(names@).contains(name) <==> names_a_family(
                        descriptors@,
                        name,
                    ) || names_a_font(self.fonts().take(k as int), name),
            decreases self.fonts.len() - k,
        {
            proof {
                assert(self.fonts()[k as int] == self.fonts@[k as int]@);
                lemma_font_named(self.fonts(), k as int);
            }
            insert_name(&mut names, self.fonts[k].postscript_name.clone());
            k = k + 1;
        }
        assert(self.fonts().take(k as int) =~= self.fonts());
        names
    }

    /// The loaded font at the given position.
    pub fn font(&self, id: FontId) -> (font: &LoadedFont<F>)
        requires
            id.0 < self.fonts().len(),
        ensures
            font@ == self.fonts()[id.0 as int],
    {
        &self.fonts[id.0]
    }

    /// Whether there is a loaded font at the given position.
    pub fn has_font(&self, id: FontId) -> (has: bool)
        ensures
            has == (id.0 < self.fonts().len()),
    {
        id.0 < self.fonts.len()
    }
}

proof fn lemma_family_named(descriptors: Seq<Option<String>>, i: int)
    requires
        0 <= i < descriptors.len(),
    ensures
        forall|name: Seq<char>| #[trigger]
            names_a_family(descriptors.take(i + 1), name) <==> names_a_family(
                descriptors.take(i),
                name,
            ) || (descriptors[i] is Some && descriptors[i]->0@ == name),
{
    assert forall|name: Seq<char>| #[trigger]
        names_a_family(descriptors.take(i + 1), name) <==> names_a_family(
        descriptors.take(i),
        name,
    ) || (descriptors[i] is Some && descriptors[i]->0@ == name) by {
        let (long, short) = (descriptors.take(i + 1), descriptors.take(i));
        if names_a_family(long, name) {
            let j = choose|j: int| #![trigger long[j]]
                0 <= j < long.len() && long[j] is Some && long[j]->0@ == name;
            if j < i {
                assert(short[j] == long[j]);
            }
        }
        if names_a_family(short, name) {
            let j = choose|j: int| #![trigger short[j]]
                0 <= j < short.len() && short[j] is Some && short[j]->0@ == name;
            assert(long[j] == short[j]);
        }
        if descriptors[i] is Some && descriptors[i]->0@ == name {
            assert(long[i] == descriptors[i]);
        }
    }
}

proof fn lemma_font_named<F>(fonts: Seq<LoadedFontView<F>>, i: int)
    requires
        0 <= i < fonts.len(),
    ensures
        forall|name: Seq<char>| #[trigger]
            names_a_font(fonts.take(i + 1), name) <==> names_a_font(fonts.take(i), name)
                || fonts[i].postscript_name == name,
{
    assert forall|name: Seq<char>| #[trigger]
        names_a_font(fonts.take(i + 1), name) <==> names_a_font(fonts.take(i), name)
        || fonts[i].postscript_name == name by {
        let (long, short) = (fonts.take(i + 1), fonts.take(i));
        if names_a_font(long, name) {
            let j = choose|j: int| 0 <= j < long.len() && #[trigger] long[j].postscript_name == name;
            if j < i {
                assert(short[j].postscript_name == name);
            }
        }
        if names_a_font(short, name) {
            let j = choose|j: int|
                0 <= j < short.len() && #[trigger] short[j].postscript_name == name;
            assert(long[j].postscript_name == name);
        }
        if fonts[i].postscript_name == name {
            assert(long[i].postscript_name == name);
        }
    }
}

/// The trait bits of a font: what its description says of them, as a number
/// that may be missing.
pub fn ct_symbolic_traits(number: Option<i32>) -> (traits: u32)
    ensures
        match number {
            Some(n) => (traits - n) % 0x1_0000_0000 == 0,
            None => traits == 0,
        },
{
    match number {
        Some(n) => if n >= 0 {
            n as u32
        } else {
            0xffff_ffff - ((-1 - n) as u32)
        },
        None => 0,
    }
}

/// Every family name of a descriptor and every PostScript name of a loaded font is
/// listed, and a name that is neither is not.
pub proof fn law_listed_names_have_a_source<F>(
    descriptors: Seq<Option<String>>,
    fonts: Seq<LoadedFontView<F>>,
    name: Seq<char>,
    i: int,
)
    ensures
        0 <= i < descriptors.len() && descriptors[i] is Some ==> names_a_family(
            descriptors,
            descriptors[i]->0@,
        ),
        0 <= i < fonts.len() ==> names_a_font(fonts, fonts[i].postscript_name),
        (forall|j: int|
            #![trigger descriptors[j]]
            0 <= j < descriptors.len() && descriptors[j] is Some ==> descriptors[j]->0@ != name)
            ==> !names_a_family(descriptors, name),
        (forall|j: int| 0 <= j < fonts.len() ==> #[trigger] fonts[j].postscript_name != name)
            ==> !names_a_font(fonts, name),
{
}

} // verus!
