//! What the standard formatter is given to write. Values that must not leak
//! render a fixed text, and the contracts of their `fmt` say which.

use core::fmt::Formatter;
use vstd::prelude::*;

verus! {

#[verifier::external_type_specification]
#[verifier::external_body]
pub struct ExFormatter<'a>(Formatter<'a>);

#[verifier::external_type_specification]
#[verifier::external_body]
pub struct ExFormatError(core::fmt::Error);

/// Everything that has been written through a formatter so far.
pub uninterp spec fn written(formatter: Formatter<'_>) -> Seq<char>;

/// `Formatter::write_str` appends the given text to the formatter's output;
/// nothing is said of what a failed write leaves behind.
pub assume_specification<'a>[ Formatter::<'a>::write_str ](
    formatter: &mut Formatter<'a>,
    data: &str,
) -> (r: Result<(), core::fmt::Error>)
    ensures
        r is Ok ==> written(*final(formatter)) == written(*old(formatter)) + data@,
;

/// A successful write of exactly `text`.
pub open spec fn wrote(before: Formatter<'_>, after: Formatter<'_>, text: Seq<char>) -> bool {
    written(after) == written(before) + text
}

} // verus!
