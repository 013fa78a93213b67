//! Plain-text rendering of the local state: the numbered item listing
//! with resolved category markers, and the category listing. Colour is a
//! console concern and stays outside the library; these renderings are
//! the text underneath it.

use vstd::prelude::*;

use crate::text::{
    push_dec, push_dec_padded, push_fixed2, spec_dec, spec_fixed2, spec_pad_left, str_chars,
    string_from_chars,
};
use crate::types::{
    Amount, AmountView, CategoryDefinition, CategoryView, ItemView, SLItem, State, StateView,
    spec_from_state,
};

verus! {

/// The display text of an amount: the fixed-point value, then the unit
/// after one space when there is one.
pub open spec fn spec_amount_text(a: AmountView) -> Seq<char> {
    spec_fixed2(a.value_hundredths) + (match a.unit {
        Some(u) => seq![' '] + u,
        None => Seq::empty(),
    })
}

/// The display text of an item: a rich item shows its amount (if any)
/// before its name; a free-text item shows its raw string.
pub open spec fn spec_item_text(it: ItemView) -> Seq<char> {
    match it {
        ItemView::Rich { name, amount, .. } => match amount {
            Some(a) => spec_amount_text(a) + seq![' '] + name,
            None => name,
        },
        ItemView::Text { text, .. } => text,
    }
}

/// The first category with the given identifier, reading definitions in
/// order.
pub open spec fn spec_find_category(cats: Seq<CategoryView>, id: Seq<char>) -> Option<CategoryView>
    decreases cats.len(),
{
    if cats.len() == 0 {
        None
    } else if cats[0].id == id {
        Some(cats[0])
    } else {
        spec_find_category(cats.drop_first(), id)
    }
}

/// The category marker of a line: ` (SHORT)` when the item's reference
/// resolves against the current categories, nothing otherwise — an
/// unresolved reference renders as no category rather than failing.
pub open spec fn spec_marker(it: ItemView, cats: Seq<CategoryView>) -> Seq<char> {
    match it {
        ItemView::Rich { category: Some(cid), .. } => match spec_find_category(cats, cid) {
            Some(c) => seq![' ', '('] + c.short_name + seq![')'],
            None => Seq::empty(),
        },
        _ => Seq::empty(),
    }
}

/// One listing line: the 1-based index padded to the width of the item
/// count, a dot, the category marker, a space, the item's display text,
/// and a line break.
pub open spec fn spec_item_line(
    idx1: nat,
    w: nat,
    it: ItemView,
    cats: Seq<CategoryView>,
) -> Seq<char> {
    spec_pad_left(spec_dec(idx1), w) + seq!['.'] + spec_marker(it, cats) + seq![' ']
        + spec_item_text(it) + seq!['\n']
}

/// The listing lines from position `i` on.
pub open spec fn spec_lines_from(
    items: Seq<ItemView>,
    cats: Seq<CategoryView>,
    w: nat,
    i: nat,
) -> Seq<char>
    decreases items.len() - i,
{
    if i >= items.len() {
        Seq::empty()
    } else {
        spec_item_line((i + 1) as nat, w, items[i as int], cats) + spec_lines_from(
            items,
            cats,
            w,
            (i + 1) as nat,
        )
    }
}

/// The full listing of a local state: the title line, then one line per
/// item in display order.
pub open spec fn spec_render_state(s: StateView) -> Seq<char> {
    s.current_state.title + seq!['\n'] + spec_lines_from(
        s.current_state.items,
        s.categories,
        spec_dec(s.current_state.items.len()).len(),
        0,
    )
}

/// Appends the characters of a string.
fn push_str_chars(out: &mut Vec<char>, s: &String)
    ensures
        final(out)@ == old(out)@ + s@,
{
    let mut cs = str_chars(s.as_str());
    out.append(&mut cs);
}

/// Appends an amount's display text.
fn push_amount(out: &mut Vec<char>, a: &Amount)
    ensures
        final(out)@ == old(out)@ + spec_amount_text(a@),
{
    push_fixed2(out, a.value_hundredths);
    match &a.unit {
        Some(u) => {
            out.push(' ');
            push_str_chars(out, u);
            proof {
                assert(out@ =~= old(out)@ + spec_amount_text(a@));
            }
        },
        None => {
            proof {
                assert(out@ =~= old(out)@ + spec_amount_text(a@));
            }
        },
    }
}

/// Appends an item's display text.
fn push_item_text(out: &mut Vec<char>, it: &SLItem)
    ensures
        final(out)@ == old(out)@ + spec_item_text(it@),
{
    match it {
        SLItem::ServerRepr { name, amount, .. } => {
            match amount {
                Some(a) => {
                    push_amount(out, a);
                    out.push(' ');
                },
                None => {},
            }
            push_str_chars(out, name);
            proof {
                assert(out@ =~= old(out)@ + spec_item_text(it@));
            }
        },
        SLItem::StringRepr { string_representation, .. } => {
            push_str_chars(out, string_representation);
        },
    }
}

/// Finds the first category with the given identifier.
pub fn find_category<'a>(cats: &'a Vec<CategoryDefinition>, id: &String) -> (r: Option<
    &'a CategoryDefinition,
>)
    ensures
        ({
            let cv = cats@.map_values(|c: CategoryDefinition| c@);
            match r {
                Some(c) => spec_find_category(cv, id@) == Some(c@),
                None => spec_find_category(cv, id@) is None,
            }
        }),
{
    let ghost cv = cats@.map_values(|c: CategoryDefinition| c@);
    let mut i: usize = 0;
    proof {
        assert(cv.skip(0) =~= cv);
    }
    while i < cats.len()
        invariant
            i <= cats@.len(),
            cv == cats@.map_values(|c: CategoryDefinition| c@),
            spec_find_category(cv.skip(i as int), id@) == spec_find_category(cv, id@),
        decreases cats@.len() - i,
    {
        let c = &cats[i];
        proof {
            assert(cv.skip(i as int)[0] == cv[i as int]);
        }
        if c.id == *id {
            return Some(c);
        }
        proof {
            assert(cv.skip(i as int).drop_first() =~= cv.skip(i + 1));
        }
        i = i + 1;
    }
    proof {
        assert(cv.skip(cv.len() as int).len() == 0);
    }
    None
}

impl State {
    /// Renders the numbered item listing, exactly as specified by
    /// [`spec_render_state`].
    pub fn render(&self) -> (r: String)
        ensures
            r@ == spec_render_state(self@),
    {
        let ghost itemsv = self@.current_state.items;
        let ghost cv = self@.categories;
        let count = self.current_state.items.len();
        let mut wv: Vec<char> = Vec::new();
        push_dec(&mut wv, count as u64);
        let w = wv.len();
        let mut out: Vec<char> = Vec::new();
        push_str_chars(&mut out, &self.current_state.title);
        out.push('\n');
        let mut i: usize = 0;
        proof {
            assert(out@ + spec_lines_from(itemsv, cv, w as nat, 0) =~= spec_render_state(self@));
        }
        while i < count
            invariant
                i <= count,
                count == self.current_state.items@.len(),
                w == spec_dec(count as nat).len(),
                itemsv == self@.current_state.items,
                cv == self@.categories,
                out@ + spec_lines_from(itemsv, cv, w as nat, i as nat) == spec_render_state(
                    self@,
                ),
            decreases count - i,
        {
            let ghost line_start = out@;
            push_dec_padded(&mut out, (i + 1) as u64, w);
            out.push('.');
            let item = &self.current_state.items[i];
            match item {
                SLItem::ServerRepr { category: Some(cid), .. } => {
                    match find_category(&self.categories, cid) {
                        Some(c) => {
                            out.push(' ');
                            out.push('(');
                            push_str_chars(&mut out, &c.short_name);
                            out.push(')');
                            proof {
                                assert(out@ =~= line_start + spec_pad_left(
                                    spec_dec((i + 1) as nat),
                                    w as nat,
                                ) + seq!['.'] + spec_marker(itemsv[i as int], cv));
                            }
                        },
                        None => {
                            proof {
                                assert(out@ =~= line_start + spec_pad_left(
                                    spec_dec((i + 1) as nat),
                                    w as nat,
                                ) + seq!['.'] + spec_marker(itemsv[i as int], cv));
                            }
                        },
                    }
                },
                _ => {
                    proof {
                        assert(spec_marker(itemsv[i as int], cv) =~= Seq::<char>::empty());
                        assert(out@ =~= line_start + spec_pad_left(
                            spec_dec((i + 1) as nat),
                            w as nat,
                        ) + seq!['.'] + spec_marker(itemsv[i as int], cv));
                    }
                },
            }
            out.push(' ');
            push_item_text(&mut out, &self.current_state.items[i]);
            out.push('\n');
            proof {
                assert(out@ =~= line_start + spec_item_line(
                    (i + 1) as nat,
                    w as nat,
                    itemsv[i as int],
                    cv,
                ));
                assert(out@ + spec_lines_from(itemsv, cv, w as nat, (i + 1) as nat)
                    =~= line_start + spec_lines_from(itemsv, cv, w as nat, i as nat));
            }
            i = i + 1;
        }
        proof {
            assert(spec_lines_from(itemsv, cv, w as nat, count as nat) =~= Seq::<char>::empty());
            assert(out@ =~= spec_render_state(self@));
        }
        string_from_chars(&out)
    }
}

/// The long form of a category: `(SHORT) name`.
pub open spec fn spec_category_long(c: CategoryView) -> Seq<char> {
    seq!['('] + c.short_name + seq![')', ' '] + c.name
}

impl CategoryDefinition {
    /// The long display form of this category: its abbreviation in
    /// parentheses, then its full name.
    pub fn to_string_long(&self) -> (r: String)
        ensures
            r@ == spec_category_long(self@),
    {
        let mut out: Vec<char> = Vec::new();
        out.push('(');
        push_str_chars(&mut out, &self.short_name);
        out.push(')');
        out.push(' ');
        push_str_chars(&mut out, &self.name);
        proof {
            assert(out@ =~= spec_category_long(self@));
        }
        string_from_chars(&out)
    }
}

/// One category listing line: the 1-based index padded to the width of
/// the category count, a dot, a space, the category's long form, and a
/// line break.
pub open spec fn spec_category_line(idx1: nat, w: nat, c: CategoryView) -> Seq<char> {
    spec_pad_left(spec_dec(idx1), w) + seq!['.', ' '] + spec_category_long(c) + seq!['\n']
}

/// The category listing lines from position `i` on.
pub open spec fn spec_category_lines_from(cs: Seq<CategoryView>, w: nat, i: nat) -> Seq<char>
    decreases cs.len() - i,
{
    if i >= cs.len() {
        Seq::empty()
    } else {
        spec_category_line((i + 1) as nat, w, cs[i as int]) + spec_category_lines_from(
            cs,
            w,
            (i + 1) as nat,
        )
    }
}

/// The full category listing: one line per definition, in server order.
pub open spec fn spec_render_categories(cs: Seq<CategoryView>) -> Seq<char> {
    spec_category_lines_from(cs, spec_dec(cs.len()).len(), 0)
}

/// Renders the numbered category listing, exactly as specified by
/// [`spec_render_categories`].
pub fn print_categories(categories: &Vec<CategoryDefinition>) -> (r: String)
    ensures
        r@ == spec_render_categories(categories@.map_values(|c: CategoryDefinition| c@)),
{
    let ghost cv = categories@.map_values(|c: CategoryDefinition| c@);
    let count = categories.len();
    let mut wv: Vec<char> = Vec::new();
    push_dec(&mut wv, count as u64);
    let w = wv.len();
    let mut out: Vec<char> = Vec::new();
    let mut i: usize = 0;
    proof {
        assert(out@ + spec_category_lines_from(cv, w as nat, 0) =~= spec_render_categories(cv));
    }
    while i < count
        invariant
            i <= count,
            count == categories@.len(),
            w == spec_dec(count as nat).len(),
            cv == categories@.map_values(|c: CategoryDefinition| c@),
            out@ + spec_category_lines_from(cv, w as nat, i as nat) == spec_render_categories(cv),
        decreases count - i,
    {
        let ghost line_start = out@;
        push_dec_padded(&mut out, (i + 1) as u64, w);
        out.push('.');
        out.push(' ');
        out.push('(');
        push_str_chars(&mut out, &categories[i].short_name);
        out.push(')');
        out.push(' ');
        push_str_chars(&mut out, &categories[i].name);
        out.push('\n');
        proof {
            assert(out@ =~= line_start + spec_category_line((i + 1) as nat, w as nat, cv[i as int]));
            assert(out@ + spec_category_lines_from(cv, w as nat, (i + 1) as nat)
                =~= line_start + spec_category_lines_from(cv, w as nat, i as nat));
        }
        i = i + 1;
    }
    proof {
        assert(spec_category_lines_from(cv, w as nat, count as nat) =~= Seq::<char>::empty());
        assert(out@ =~= spec_render_categories(cv));
    }
    string_from_chars(&out)
}

/// Adding an item and then committing: the request built from the grown
/// state carries exactly one more entry than the state it grew from, and
/// the new entry renders as the added text.
pub proof fn lemma_add_then_commit(
    s: StateView,
    id: Seq<char>,
    text: Seq<char>,
    include_categories: bool,
)
    ensures
        ({
            let grown = StateView { current_state: s.current_state.added(id, text), ..s };
            let req = spec_from_state(grown, include_categories);
            &&& req.current_state.items.len() == s.current_state.items.len() + 1
            &&& spec_item_text(req.current_state.items.last()) == text
        }),
{
}

} // verus!
