use vstd::prelude::*;

verus! {

/// What one frame of interactions does to the elements of a list: first the
/// add button appends an element, then the remove button of one row takes
/// that row out.
pub open spec fn edited_list<T>(
    s: Seq<T>,
    append: Option<T>,
    remove_at: Option<usize>,
) -> Seq<T> {
    let grown = match append {
        Option::Some(x) => s.push(x),
        Option::None => s,
    };
    match remove_at {
        Option::Some(i) => grown.remove(i as int),
        Option::None => grown,
    }
}

/// Applies one frame's structural interactions to a list: `append` is the
/// element the add button contributes, and `remove_at` is the row whose
/// remove button was clicked. Appending happens before removing, as a row's
/// remove button is drawn before the add button's effect is applied.
pub fn edit_list<T>(items: &mut Vec<T>, append: Option<T>, remove_at: Option<usize>)
    requires
        remove_at matches Some(i) ==> i < old(items)@.len(),
    ensures
        final(items)@ == edited_list(old(items)@, append, remove_at),
{
    if let Some(x) = append {
        items.push(x);
    }
    if let Some(i) = remove_at {
        items.remove(i);
    }
}

/// A render pass with no interactions leaves the list as it was.
pub proof fn lemma_noop_edit_keeps_list<T>(s: Seq<T>)
    ensures
        edited_list(s, None::<T>, None::<usize>) == s,
{
}

} // verus!
