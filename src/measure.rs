use vstd::prelude::*;

verus! {

/// A font loaded on the X display; it measures rendered text.
#[verifier::external_type_specification]
#[verifier::external_body]
pub struct ExContext(textwidth::Context);

/// Whether `text` holds a NUL character, which no C string can carry.
pub open spec fn has_nul(text: Seq<char>) -> bool {
    exists|i: int| 0 <= i < text.len() && text[i] == '\0'
}

/// Relies on textwidth::get_text_width: the pixel width of `text` in the font
/// of `ctx`, which fails only when `text` cannot become a C string.
#[verifier::external_body]
pub(crate) fn text_width(ctx: &textwidth::Context, text: &str) -> (r: Option<u64>)
    ensures
        r is None <==> has_nul(text@),
{
    textwidth::get_text_width(ctx, text).ok()
}

} // verus!
