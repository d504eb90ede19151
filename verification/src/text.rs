//! Strings: what the standard library's string functions do, and the decoding
//! of text that the system hands over.

use vstd::prelude::*;
use vstd::utf8::*;

verus! {

/// The lower-case form of one character, where only the letters A to Z count as
/// upper case.
pub open spec fn ascii_lower(c: char) -> char {
    if 'A' <= c <= 'Z' {
        ((c as u32) + 32) as char
    } else {
        c
    }
}

/// A text with the letters A to Z in lower case.
pub open spec fn ascii_lowercase(text: Seq<char>) -> Seq<char> {
    text.map_values(|c: char| ascii_lower(c))
}

/// The lower-case form of a text as Unicode defines it: what
/// [`str::to_lowercase`] returns.
pub uninterp spec fn str_lowercase(text: Seq<char>) -> Seq<char>;

/// [`str::to_lowercase`]: the result depends on the text alone, and of a text
/// in ASCII it is the text with the letters A to Z in lower case. Nothing else
/// is claimed of the Unicode tables.
pub assume_specification[ str::to_lowercase ](text: &str) -> (lower: String)
    ensures
        lower@ == str_lowercase(text@),
        is_ascii_chars(text@) ==> lower@ == ascii_lowercase(text@),
;

/// [`str::eq_ignore_ascii_case`]: the two texts are equal once the letters A to
/// Z in both are in lower case.
pub assume_specification[ str::eq_ignore_ascii_case ](a: &str, b: &str) -> (equal: bool)
    ensures
        equal == (ascii_lowercase(a@) == ascii_lowercase(b@)),
;

/// The reason that [`std::str::from_utf8`] gives for refusing bytes that are no
/// well-formed UTF-8, in words.
pub uninterp spec fn utf8_error_text(bytes: Seq<u8>) -> Seq<char>;

/// [`std::str::from_utf8`]: it succeeds exactly on well-formed UTF-8, and gives
/// the text that the bytes encode. The error is handed on in its own words, which
/// depend on the bytes alone; what they are is not claimed.
#[verifier::external_body]
fn checked_utf8(bytes: &[u8]) -> (text: Result<&str, String>)
    ensures
        text is Ok <==> valid_utf8(bytes@),
        text is Ok ==> text->Ok_0@ == decode_utf8(bytes@),
        text is Err ==> text->Err_0@ == utf8_error_text(bytes@),
{
    match std::str::from_utf8(bytes) {
        Ok(text) => Ok(text),
        Err(error) => Err(format!("{}", error)),
    }
}

/// Why the system's text could not be read.
#[derive(Clone, Debug, PartialEq, Eq)]
pub enum TextError {
    /// The system has no such text.
    Missing,
    /// The bytes are no well-formed UTF-8, for the reason that the standard
    /// library gives.
    NotUtf8 { reason: String },
}

/// The contents of a [`TextError`].
pub enum TextErrorView {
    Missing,
    NotUtf8 { reason: Seq<char> },
}

impl View for TextError {
    type V = TextErrorView;

    open spec fn view(&self) -> TextErrorView {
        match *self {
            TextError::Missing => TextErrorView::Missing,
            TextError::NotUtf8 { reason } => TextErrorView::NotUtf8 { reason: reason@ },
        }
    }
}

/// The text that the system hands over as bytes, or as nothing at all.
pub open spec fn decoded_text(utf8: Option<Seq<u8>>) -> Result<Seq<char>, TextErrorView> {
    match utf8 {
        None => Err(TextErrorView::Missing),
        Some(bytes) => if valid_utf8(bytes) {
            Ok(decode_utf8(bytes))
        } else {
            Err(TextErrorView::NotUtf8 { reason: utf8_error_text(bytes) })
        },
    }
}

/// The bytes behind an optional slice.
pub open spec fn optional_bytes(utf8: Option<&[u8]>) -> Option<Seq<u8>> {
    match utf8 {
        None => None,
        Some(bytes) => Some(bytes@),
    }
}

/// Decodes text that the system hands over; `None` stands for a null pointer.
pub fn decode_text(utf8: Option<&[u8]>) -> (text: Result<String, TextError>)
    ensures
        decoded_text(optional_bytes(utf8)) == match text {
            Ok(string) => Ok::<Seq<char>, TextErrorView>(string@),
            Err(error) => Err(error@),
        },
{
    match utf8 {
        None => Err(TextError::Missing),
        Some(bytes) => match checked_utf8(bytes) {
            Ok(text) => Ok(text.to_owned()),
            Err(reason) => Err(TextError::NotUtf8 { reason }),
        },
    }
}

/// Decodes text that the system hands over, and takes what cannot be read for
/// the empty text.
pub fn ns_string_to_str(utf8: Option<&[u8]>) -> (text: String)
    ensures
        text@ == match decoded_text(optional_bytes(utf8)) {
            Ok(decoded) => decoded,
            Err(_) => Seq::empty(),
        },
{
    match decode_text(utf8) {
        Ok(text) => text,
        Err(_) => String::new(),
    }
}

/// Reading text back: what a string encodes to decodes to the same string.
pub proof fn law_decoding_undoes_encoding(text: Seq<char>)
    ensures
        decoded_text(Some(encode_utf8(text))) == Ok::<Seq<char>, TextErrorView>(text),
{
    encode_utf8_valid_utf8(text);
    encode_utf8_decode_utf8(text);
}

/// What is read is what was there: text comes back exactly where there are bytes
/// that are well-formed, it encodes to those bytes, and otherwise the error says
/// what is wrong.
pub proof fn law_decoding_is_faithful(utf8: Option<Seq<u8>>)
    ensures
        match decoded_text(utf8) {
            Ok(text) => utf8 == Some(encode_utf8(text)),
            Err(TextErrorView::Missing) => utf8 is None,
            Err(TextErrorView::NotUtf8 { reason }) => {
                &&& utf8 is Some
                &&& !valid_utf8(utf8->0)
                &&& reason == utf8_error_text(utf8->0)
            },
        },
        utf8 is Some && valid_utf8(utf8->0) ==> decoded_text(utf8) is Ok,
{
    if utf8 is Some && valid_utf8(utf8->0) {
        decode_utf8_encode_utf8(utf8->0);
    }
}

/// The bytes that are decoded are those of the slice.
pub proof fn law_bytes_are_those_of_the_slice(bytes: &[u8])
    ensures
        optional_bytes(Some(bytes)) == Some(bytes@),
        optional_bytes(None::<&[u8]>) is None,
{
}

/// Lower case in ASCII moves the letters A to Z by 32 places, and leaves every
/// other character and the number of characters as they are.
pub proof fn law_ascii_lowercase_moves_letters(text: Seq<char>, i: int)
    requires
        0 <= i < text.len(),
    ensures
        ascii_lowercase(text).len() == text.len(),
        0x41 <= text[i] as u32 <= 0x5a ==> ascii_lowercase(text)[i] as u32 == text[i] as u32 + 32,
        !(0x41 <= text[i] as u32 <= 0x5a) ==> ascii_lowercase(text)[i] == text[i],
{
}

/// How two texts stand to each other in the order of their bytes.
#[derive(Clone, Copy, Debug, PartialEq, Eq, Structural)]
pub enum TextOrder {
    Less,
    Equal,
    Greater,
}

/// Whether `a` comes before `b` because of position `i`: up to there the two
/// agree, and there `a` has ended or holds the smaller byte.
pub open spec fn bytes_less_at(a: Seq<u8>, b: Seq<u8>, i: int) -> bool {
    &&& 0 <= i <= a.len()
    &&& i < b.len()
    &&& forall|j: int| 0 <= j < i ==> #[trigger] a[j] == b[j]
    &&& i == a.len() || a[i] < b[i]
}

/// The lexicographic order of byte sequences.
pub open spec fn bytes_less(a: Seq<u8>, b: Seq<u8>) -> bool {
    exists|i: int| bytes_less_at(a, b, i)
}

/// The order of texts: the lexicographic order of their UTF-8 bytes.
pub open spec fn text_less(a: Seq<char>, b: Seq<char>) -> bool {
    bytes_less(encode_utf8(a), encode_utf8(b))
}

/// The order of texts is transitive.
pub proof fn law_text_less_is_transitive(a: Seq<char>, b: Seq<char>, c: Seq<char>)
    requires
        text_less(a, b),
        text_less(b, c),
    ensures
        text_less(a, c),
{
    let (x, y, z) = (encode_utf8(a), encode_utf8(b), encode_utf8(c));
    let i = choose|i: int| bytes_less_at(x, y, i);
    let k = choose|k: int| bytes_less_at(y, z, k);
    let m = if i <= k {
        i
    } else {
        k
    };
    assert forall|j: int| 0 <= j < m implies #[trigger] x[j] == z[j] by {
        assert(x[j] == y[j]);
        assert(y[j] == z[j]);
    }
    assert(bytes_less_at(x, z, m)) by {
        if k < i {
            assert(x[k] == y[k]);
        } else if i < k {
            assert(y[i] == z[i]);
        }
    }
}

/// No text comes before itself.
pub proof fn law_text_less_is_irreflexive(a: Seq<char>)
    ensures
        !text_less(a, a),
{
}

/// Of two texts that differ, one comes before the other.
pub proof fn law_text_less_is_total(a: Seq<char>, b: Seq<char>)
    ensures
        a != b ==> text_less(a, b) || text_less(b, a),
        !(text_less(a, b) && text_less(b, a)),
{
    let (x, y) = (encode_utf8(a), encode_utf8(b));
    let i = lemma_first_difference(x, y, 0);
    if i == x.len() && i == y.len() {
        assert(x =~= y);
        encode_utf8_decode_utf8(a);
        encode_utf8_decode_utf8(b);
    } else if i < y.len() && (i == x.len() || x[i] < y[i]) {
        assert(bytes_less_at(x, y, i));
    } else {
        assert(bytes_less_at(y, x, i));
    }
    if text_less(a, b) && text_less(b, a) {
        law_text_less_is_transitive(a, b, a);
        law_text_less_is_irreflexive(a);
    }
}

/// Where two sequences first differ, or the shorter one ends.
proof fn lemma_first_difference(a: Seq<u8>, b: Seq<u8>, from: int) -> (i: int)
    requires
        0 <= from <= a.len(),
        from <= b.len(),
        forall|j: int| 0 <= j < from ==> #[trigger] a[j] == b[j],
    ensures
        0 <= i <= a.len(),
        i <= b.len(),
        forall|j: int| 0 <= j < i ==> #[trigger] a[j] == b[j],
        i == a.len() || i == b.len() || a[i] != b[i],
    decreases a.len() - from,
{
    if from == a.len() || from == b.len() || a[from] != b[from] {
        from
    } else {
        lemma_first_difference(a, b, from + 1)
    }
}

/// A text comes before one that begins with it and goes on, and of two texts the
/// one with the smaller byte comes first where their bytes first differ.
pub proof fn law_first_difference_decides(a: Seq<char>, b: Seq<char>, i: int)
    requires
        0 <= i <= encode_utf8(a).len(),
        i < encode_utf8(b).len(),
        encode_utf8(a).take(i) == encode_utf8(b).take(i),
        i < encode_utf8(a).len() ==> encode_utf8(a)[i] < encode_utf8(b)[i],
    ensures
        text_less(a, b),
{
    let (x, y) = (encode_utf8(a), encode_utf8(b));
    assert forall|j: int| 0 <= j < i implies #[trigger] x[j] == y[j] by {
        assert(x.take(i)[j] == y.take(i)[j]);
    }
    assert(bytes_less_at(x, y, i));
}

/// Compares two texts by their bytes.
pub fn compare_text(a: &str, b: &str) -> (order: TextOrder)
    ensures
        match order {
            TextOrder::Less => text_less(a@, b@),
            TextOrder::Equal => a@ == b@,
            TextOrder::Greater => text_less(b@, a@),
        },
{
    let x = a.as_bytes();
    let y = b.as_bytes();
    let mut i: usize = 0;
    while i < x.len() && i < y.len()
        invariant
            i <= x.len(),
            i <= y.len(),
            x@ == encode_utf8(a@),
            y@ == encode_utf8(b@),
            forall|j: int| 0 <= j < i ==> #[trigger] x@[j] == y@[j],
        decreases x.len() - i,
    {
        if x[i] < y[i] {
            assert(bytes_less_at(x@, y@, i as int));
            return TextOrder::Less;
        }
        if y[i] < x[i] {
            assert(bytes_less_at(y@, x@, i as int));
            return TextOrder::Greater;
        }
        i = i + 1;
    }
    if i < y.len() {
        assert(bytes_less_at(x@, y@, i as int));
        TextOrder::Less
    } else if i < x.len() {
        assert(bytes_less_at(y@, x@, i as int));
        TextOrder::Greater
    } else {
        proof {
            assert(x@ =~= y@);
            encode_utf8_decode_utf8(a@);
            encode_utf8_decode_utf8(b@);
        }
        TextOrder::Equal
    }
}

} // verus!
