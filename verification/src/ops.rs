//! The category commands a local invocation may apply to its working
//! state before committing: add, remove by index, edit by index. Item
//! commands live on [`crate::types::ShoppingList`] itself.

use vstd::prelude::*;

use crate::category::{derive_category_short_name, random_color, spec_color_hex, spec_short_name};
use crate::error::ShopError;
use crate::types::{new_uuid, CategoryDefinition, CategoryView, State};

verus! {

/// A category after a field-wise edit: each given value replaces the
/// corresponding field, absent values leave it alone; the identifier
/// never changes.
pub open spec fn spec_category_edited(
    c: CategoryView,
    name: Option<Seq<char>>,
    short_name: Option<Seq<char>>,
    color: Option<Seq<char>>,
    light_text: Option<bool>,
) -> CategoryView {
    CategoryView {
        id: c.id,
        name: match name {
            Some(n) => n,
            None => c.name,
        },
        short_name: match short_name {
            Some(s) => s,
            None => c.short_name,
        },
        color: match color {
            Some(x) => x,
            None => c.color,
        },
        light_text: match light_text {
            Some(b) => b,
            None => c.light_text,
        },
    }
}

/// What removing the category at `i` yields: the shortened sequence on a
/// valid index, `InvalidIndex` otherwise.
pub open spec fn spec_remove_category_outcome(cs: Seq<CategoryView>, i: int) -> Result<
    Seq<CategoryView>,
    ShopError,
> {
    if 0 <= i < cs.len() {
        Ok(cs.remove(i))
    } else {
        Err(ShopError::InvalidIndex)
    }
}

/// What editing the category at `i` yields: the field-wise edit on a
/// valid index, `InvalidIndex` otherwise.
pub open spec fn spec_edit_category_outcome(
    cs: Seq<CategoryView>,
    i: int,
    name: Option<Seq<char>>,
    short_name: Option<Seq<char>>,
    color: Option<Seq<char>>,
    light_text: Option<bool>,
) -> Result<Seq<CategoryView>, ShopError> {
    if 0 <= i < cs.len() {
        Ok(cs.update(i, spec_category_edited(cs[i], name, short_name, color, light_text)))
    } else {
        Err(ShopError::InvalidIndex)
    }
}

/// Appends a category to the working state. The abbreviation defaults to
/// the one derived from the name, the colour to a random `#rrggbb`
/// value, and the identifier is freshly generated. Snapshot and working
/// list stay untouched.
pub fn add_category(
    state: &mut State,
    name: String,
    short_name: Option<String>,
    color: Option<String>,
    light_text: bool,
)
    ensures
        final(state)@.previous_sync == old(state)@.previous_sync,
        final(state)@.current_state == old(state)@.current_state,
        final(state)@.categories.len() == old(state)@.categories.len() + 1,
        final(state)@.categories.drop_last() == old(state)@.categories,
        ({
            let c = final(state)@.categories.last();
            &&& c.name == name@
            &&& c.light_text == light_text
            &&& c.id.len() == 36
            &&& (short_name matches Some(s) ==> c.short_name == s@)
            &&& (short_name is None ==> c.short_name == spec_short_name(name@))
            &&& (color matches Some(x) ==> c.color == x@)
            &&& (color is None ==> exists|r: u8, g: u8, b: u8|
                #![auto]
                c.color == spec_color_hex(r, g, b))
        }),
{
    let short = match short_name {
        Some(s) => s,
        None => derive_category_short_name(name.as_str()),
    };
    let col = match color {
        Some(x) => x,
        None => random_color(),
    };
    let cat = CategoryDefinition {
        id: new_uuid(),
        name,
        short_name: short,
        color: col,
        light_text,
    };
    let ghost cat_view = cat@;
    state.categories.push(cat);
    proof {
        assert(state@.categories =~= old(state)@.categories.push(cat_view));
        assert(state@.categories.drop_last() =~= old(state)@.categories);
    }
}

/// Removes the category at a zero-based index. A valid index gives `Ok`
/// and drops exactly that definition; an out-of-range index gives
/// `InvalidIndex` and leaves the state untouched. Snapshot and working
/// list stay untouched either way.
pub fn remove_category_by_index(state: &mut State, index: usize) -> (r: Result<(), ShopError>)
    ensures
        final(state)@.previous_sync == old(state)@.previous_sync,
        final(state)@.current_state == old(state)@.current_state,
        ({
            let out = spec_remove_category_outcome(old(state)@.categories, index as int);
            &&& out matches Ok(cs) ==> r is Ok && final(state)@.categories == cs
            &&& out matches Err(e) ==> r == Err::<(), ShopError>(e) && final(state)@ == old(
                state,
            )@
        }),
{
    if index < state.categories.len() {
        state.categories.remove(index);
        proof {
            assert(state@.categories =~= old(state)@.categories.remove(index as int));
        }
        Ok(())
    } else {
        Err(ShopError::InvalidIndex)
    }
}

/// Edits the category at a zero-based index, field by field: each given
/// value replaces the corresponding field, absent values leave it alone.
/// A valid index gives `Ok`; an out-of-range index gives `InvalidIndex`
/// and leaves the state untouched. Snapshot and working list stay
/// untouched either way.
pub fn edit_category_by_index(
    state: &mut State,
    index: usize,
    name: Option<String>,
    short_name: Option<String>,
    color: Option<String>,
    light_text: Option<bool>,
) -> (r: Result<(), ShopError>)
    ensures
        final(state)@.previous_sync == old(state)@.previous_sync,
        final(state)@.current_state == old(state)@.current_state,
        ({
            let out = spec_edit_category_outcome(
                old(state)@.categories,
                index as int,
                match name {
                    Some(ref n) => Some(n@),
                    None => None,
                },
                match short_name {
                    Some(ref s) => Some(s@),
                    None => None,
                },
                match color {
                    Some(ref x) => Some(x@),
                    None => None,
                },
                light_text,
            );
            &&& out matches Ok(cs) ==> r is Ok && final(state)@.categories == cs
            &&& out matches Err(e) ==> r == Err::<(), ShopError>(e) && final(state)@ == old(
                state,
            )@
        }),
{
    if index >= state.categories.len() {
        return Err(ShopError::InvalidIndex);
    }
    let category = &mut state.categories[index];
    if let Some(n) = name {
        category.name = n;
    }
    if let Some(s) = short_name {
        category.short_name = s;
    }
    if let Some(x) = color {
        category.color = x;
    }
    if let Some(b) = light_text {
        category.light_text = b;
    }
    proof {
        assert(state@.categories =~= old(state)@.categories.update(
            index as int,
            spec_category_edited(
                old(state)@.categories[index as int],
                match name {
                    Some(ref n) => Some(n@),
                    None => None,
                },
                match short_name {
                    Some(ref s) => Some(s@),
                    None => None,
                },
                match color {
                    Some(ref x) => Some(x@),
                    None => None,
                },
                light_text,
            ),
        ));
    }
    Ok(())
}

} // verus!
