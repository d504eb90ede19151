//! Ranges in the form that Foundation has for them.

use std::ops::Range;
use vstd::prelude::*;
use vstd::string::StringExecFns;

verus! {

/// A range of a text: where it starts, and how long it is.
#[derive(Clone, Copy, Debug, PartialEq, Eq, Structural)]
pub struct NSRange {
    pub location: usize,
    pub length: usize,
}

/// The length of a range; one that ends before it starts is empty.
pub open spec fn range_len(range: Range<usize>) -> int {
    if range.start < range.end {
        range.end - range.start
    } else {
        0
    }
}

impl NSRange {
    /// The range that stands for none.
    pub open spec fn spec_invalid() -> NSRange {
        NSRange { location: usize::MAX, length: 0 }
    }

    /// The range that stands for none.
    #[verifier::when_used_as_spec(spec_invalid)]
    pub fn invalid() -> (range: NSRange)
        ensures
            range == NSRange::invalid(),
    {
        NSRange { location: usize::MAX, length: 0 }
    }

    /// Whether this is a range, rather than the sign that there is none.
    pub open spec fn spec_is_valid(&self) -> bool {
        self.location != usize::MAX
    }

    /// Whether this is a range, rather than the sign that there is none.
    #[verifier::when_used_as_spec(spec_is_valid)]
    pub fn is_valid(&self) -> (valid: bool)
        ensures
            valid == self.is_valid(),
    {
        self.location != usize::MAX
    }

    /// The range by its start and end, if there is one.
    pub fn to_range(self) -> (range: Option<Range<usize>>)
        requires
            self.is_valid() ==> self.location + self.length <= usize::MAX,
        ensures
            match range {
                Some(r) => {
                    &&& self.is_valid()
                    &&& r.start == self.location
                    &&& r.end == self.location + self.length
                },
                None => !self.is_valid(),
            },
    {
        if self.is_valid() {
            let start: usize = self.location;
            let end: usize = start + self.length;
            Some(start..end)
        } else {
            None
        }
    }
}

/// A range by its start and length.
pub open spec fn ns_range_of(range: Range<usize>) -> NSRange {
    NSRange { location: range.start, length: range_len(range) as usize }
}

impl From<Range<usize>> for NSRange {
    fn from(range: Range<usize>) -> (ns_range: NSRange) {
        let length: usize = if range.start < range.end {
            range.end - range.start
        } else {
            0
        };
        NSRange { location: range.start, length }
    }
}

impl vstd::std_specs::convert::FromSpecImpl<Range<usize>> for NSRange {
    open spec fn obeys_from_spec() -> bool {
        true
    }

    open spec fn from_spec(range: Range<usize>) -> NSRange {
        ns_range_of(range)
    }
}

/// Converting a range there and back gives the same range, unless it starts at
/// the largest number, which is the sign that there is none.
pub proof fn law_range_conversion_is_undone(range: Range<usize>)
    requires
        range.start <= range.end,
        range.start != usize::MAX,
    ensures
        ns_range_of(range).is_valid(),
        ns_range_of(range).location == range.start,
        ns_range_of(range).location + ns_range_of(range).length == range.end,
{
}

/// A range that ends before it starts becomes an empty one at its start.
pub proof fn law_backward_ranges_are_empty(range: Range<usize>)
    requires
        range.end <= range.start,
    ensures
        ns_range_of(range).location == range.start,
        ns_range_of(range).length == 0,
{
}

/// Only the largest location stands for no range, whatever the length.
pub proof fn law_only_the_largest_location_is_no_range(location: usize, length: usize)
    ensures
        (NSRange { location, length }).is_valid() <==> location < usize::MAX,
{
}

/// The sign that there is no range is never taken for one.
pub proof fn law_invalid_range_is_not_valid()
    ensures
        !NSRange::invalid().is_valid(),
{
}

/// The type of a range in the notation of the Objective-C runtime, from that of
/// its numbers.
pub fn ns_range_encoding(number: &str) -> (encoding: String)
    ensures
        encoding@ == "{NSRange="@ + number@ + number@ + "}"@,
{
    let mut encoding = "{NSRange=".to_owned();
    encoding.append(number);
    encoding.append(number);
    encoding.append("}");
    encoding
}

/// The type of a point in the notation of the Objective-C runtime.
pub fn cg_point_encoding() -> (encoding: &'static str)
    ensures
        encoding@ == "{CGPoint=dd}"@,
{
    "{CGPoint=dd}"
}

/// The type of a size in the notation of the Objective-C runtime.
pub fn cg_size_encoding() -> (encoding: &'static str)
    ensures
        encoding@ == "{CGSize=dd}"@,
{
    "{CGSize=dd}"
}

/// The type of a rectangle in the notation of the Objective-C runtime.
pub fn cg_rect_encoding() -> (encoding: &'static str)
    ensures
        encoding@ == "{CGRect={CGPoint=dd}{CGSize=dd}}"@,
{
    "{CGRect={CGPoint=dd}{CGSize=dd}}"
}

/// The type of a rectangle is made of those of its corner and its size.
pub proof fn law_rectangle_encoding_is_made_of_its_parts()
    ensures
        "{CGRect={CGPoint=dd}{CGSize=dd}}"@ == "{CGRect="@ + "{CGPoint=dd}"@ + "{CGSize=dd}"@
            + "}"@,
{
    reveal_strlit("{CGRect={CGPoint=dd}{CGSize=dd}}");
    reveal_strlit("{CGRect=");
    reveal_strlit("{CGPoint=dd}");
    reveal_strlit("{CGSize=dd}");
    reveal_strlit("}");
    assert("{CGRect={CGPoint=dd}{CGSize=dd}}"@ =~= "{CGRect="@ + "{CGPoint=dd}"@ + "{CGSize=dd}"@
        + "}"@);
}

} // verus!
