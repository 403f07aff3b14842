use vstd::prelude::*;

verus! {

/// iced's `window::Id`, the identifier of a window, carried through as an opaque value.
#[verifier::external_type_specification]
#[verifier::external_body]
pub struct ExWindowId(iced::window::Id);

/// Whether two window identifiers are the same, by iced's `PartialEq` for `window::Id`,
/// which its source derives over the identifier's single number: the comparison holds
/// exactly when the identifiers are equal.
#[verifier::external_body]
pub(crate) fn same_window(a: &iced::window::Id, b: &iced::window::Id) -> (r: bool)
    ensures
        r == (*a == *b),
{
    *a == *b
}

/// A fresh window identifier, from iced's `window::Id::unique`, which draws the next
/// number of a process-wide counter; nothing is stated of which number it is.
#[verifier::external_body]
pub(crate) fn unique_window_id() -> (r: iced::window::Id) {
    iced::window::Id::unique()
}

} // verus!
