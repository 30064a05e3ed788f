use vstd::prelude::*;
use crate::attributes::StringAttributes;

verus! {

/// The shape of the widget a string is edited with.
#[derive(Clone, Copy, Debug, PartialEq, Eq, Structural)]
pub enum TextEditKind {
    SingleLine,
    MultiLine,
}

/// Decides which text editing widget a string gets from its options.
pub fn text_edit_kind(attrs: &StringAttributes) -> (r: TextEditKind)
    ensures
        r == (if attrs.multiline {
            TextEditKind::MultiLine
        } else {
            TextEditKind::SingleLine
        }),
{
    if attrs.multiline {
        TextEditKind::MultiLine
    } else {
        TextEditKind::SingleLine
    }
}

} // verus!
