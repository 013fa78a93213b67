//! The data model: items, lists, categories, snapshots, and the local
//! working state, together with the mathematical views that contracts
//! are stated over.

use vstd::prelude::*;

use crate::error::ShopError;

verus! {

/// A quantity attached to a rich item. The numeric value is kept as a
/// fixed-point number of hundredths, matching the display precision of
/// two decimal places.
pub struct Amount {
    pub value_hundredths: i64,
    pub unit: Option<String>,
}

/// Mathematical view of an [`Amount`].
pub struct AmountView {
    pub value_hundredths: int,
    pub unit: Option<Seq<char>>,
}

impl View for Amount {
    type V = AmountView;

    open spec fn view(&self) -> AmountView {
        AmountView {
            value_hundredths: self.value_hundredths as int,
            unit: match self.unit {
                Some(u) => Some(u@),
                None => None,
            },
        }
    }
}

impl Clone for Amount {
    fn clone(&self) -> (r: Self)
        ensures
            r@ == self@,
    {
        Amount {
            value_hundredths: self.value_hundredths,
            unit: match &self.unit {
                Some(u) => Some(u.clone()),
                None => None,
            },
        }
    }
}

/// A single list entry. The server hands out the rich shape; entries made
/// locally carry only their raw text.
pub enum SLItem {
    ServerRepr {
        id: String,
        name: String,
        amount: Option<Amount>,
        category: Option<String>,
    },
    StringRepr {
        id: String,
        string_representation: String,
    },
}

/// Mathematical view of an [`SLItem`].
pub enum ItemView {
    Rich {
        id: Seq<char>,
        name: Seq<char>,
        amount: Option<AmountView>,
        category: Option<Seq<char>>,
    },
    Text {
        id: Seq<char>,
        text: Seq<char>,
    },
}

impl ItemView {
    /// The identifier, common to both shapes.
    pub open spec fn id(self) -> Seq<char> {
        match self {
            ItemView::Rich { id, .. } => id,
            ItemView::Text { id, .. } => id,
        }
    }

    /// The result of editing an item: the same identifier, the new text,
    /// and always the free-text shape. Rich fields are discarded by
    /// design (a documented lossy downgrade).
    pub open spec fn edited(self, text: Seq<char>) -> ItemView {
        ItemView::Text { id: self.id(), text }
    }
}

impl View for SLItem {
    type V = ItemView;

    open spec fn view(&self) -> ItemView {
        match self {
            SLItem::ServerRepr { id, name, amount, category } => ItemView::Rich {
                id: id@,
                name: name@,
                amount: match amount {
                    Some(a) => Some(a@),
                    None => None,
                },
                category: match category {
                    Some(c) => Some(c@),
                    None => None,
                },
            },
            SLItem::StringRepr { id, string_representation } => ItemView::Text {
                id: id@,
                text: string_representation@,
            },
        }
    }
}

impl Clone for SLItem {
    fn clone(&self) -> (r: Self)
        ensures
            r@ == self@,
    {
        match self {
            SLItem::ServerRepr { id, name, amount, category } => SLItem::ServerRepr {
                id: id.clone(),
                name: name.clone(),
                amount: match amount {
                    Some(a) => Some(a.clone()),
                    None => None,
                },
                category: match category {
                    Some(c) => Some(c.clone()),
                    None => None,
                },
            },
            SLItem::StringRepr { id, string_representation } => SLItem::StringRepr {
                id: id.clone(),
                string_representation: string_representation.clone(),
            },
        }
    }
}

impl SLItem {
    /// A free-text item with the given identifier.
    pub fn with_id(id: String, string_representation: String) -> (r: SLItem)
        ensures
            r@ == (ItemView::Text { id: id@, text: string_representation@ }),
    {
        SLItem::StringRepr { id, string_representation }
    }

    /// A free-text item with a freshly generated identifier.
    pub fn new(string_representation: String) -> (r: SLItem)
        ensures
            r@ is Text,
            r@->Text_text == string_representation@,
            r@.id().len() == 36,
    {
        SLItem::StringRepr { id: new_uuid(), string_representation }
    }

    /// The item's identifier, regardless of shape.
    pub fn id(&self) -> (r: &String)
        ensures
            r@ == self@.id(),
    {
        match self {
            SLItem::ServerRepr { id, .. } => id,
            SLItem::StringRepr { id, .. } => id,
        }
    }

    /// Replaces the item by a free-text item with the same identifier and
    /// the given text. Amount and category of a rich item are lost by
    /// design, not by accident.
    pub fn edit(&mut self, string_representation: String)
        ensures
            final(self)@ == old(self)@.edited(string_representation@),
    {
        let id = match self {
            SLItem::ServerRepr { id, .. } => id.clone(),
            SLItem::StringRepr { id, .. } => id.clone(),
        };
        *self = SLItem::StringRepr { id, string_representation };
    }
}

/// Relies on `uuid::Uuid::new_v4` and its `Display` form: a fresh random
/// version-4 UUID, rendered in the hyphenated format, which is exactly 36
/// characters long. Nothing further can be promised of a random value.
#[verifier::external_body]
pub fn new_uuid() -> (r: String)
    ensures
        r@.len() == 36,
{
    uuid::Uuid::new_v4().to_string()
}

/// A category a rich item may point into: identifier, full name,
/// abbreviation shown next to items, colour as a hex string, and whether
/// other clients should draw its label with light text.
pub struct CategoryDefinition {
    pub id: String,
    pub name: String,
    pub short_name: String,
    pub color: String,
    pub light_text: bool,
}

/// Mathematical view of a [`CategoryDefinition`].
pub struct CategoryView {
    pub id: Seq<char>,
    pub name: Seq<char>,
    pub short_name: Seq<char>,
    pub color: Seq<char>,
    pub light_text: bool,
}

impl View for CategoryDefinition {
    type V = CategoryView;

    open spec fn view(&self) -> CategoryView {
        CategoryView {
            id: self.id@,
            name: self.name@,
            short_name: self.short_name@,
            color: self.color@,
            light_text: self.light_text,
        }
    }
}

impl Clone for CategoryDefinition {
    fn clone(&self) -> (r: Self)
        ensures
            r@ == self@,
    {
        CategoryDefinition {
            id: self.id.clone(),
            name: self.name.clone(),
            short_name: self.short_name.clone(),
            color: self.color.clone(),
            light_text: self.light_text,
        }
    }
}

/// The list itself: identifier, title, and the entries in display order.
pub struct ShoppingList {
    pub id: String,
    pub title: String,
    pub items: Vec<SLItem>,
}

/// Mathematical view of a [`ShoppingList`].
pub struct ListView {
    pub id: Seq<char>,
    pub title: Seq<char>,
    pub items: Seq<ItemView>,
}

impl ListView {
    /// The same list with another item sequence.
    pub open spec fn with_items(self, items: Seq<ItemView>) -> ListView {
        ListView { items, ..self }
    }

    /// The list after appending a free-text item.
    pub open spec fn added(self, id: Seq<char>, text: Seq<char>) -> ListView {
        self.with_items(self.items.push(ItemView::Text { id, text }))
    }

    /// What removing the entry at `i` yields: the shortened list on a
    /// valid index, `InvalidIndex` otherwise.
    pub open spec fn remove_outcome(self, i: int) -> Result<ListView, ShopError> {
        if 0 <= i < self.items.len() {
            Ok(self.with_items(self.items.remove(i)))
        } else {
            Err(ShopError::InvalidIndex)
        }
    }

    /// What editing the entry at `i` yields: the entry replaced by its
    /// free-text downgrade on a valid index, `InvalidIndex` otherwise.
    pub open spec fn edit_outcome(self, i: int, text: Seq<char>) -> Result<ListView, ShopError> {
        if 0 <= i < self.items.len() {
            Ok(self.with_items(self.items.update(i, self.items[i].edited(text))))
        } else {
            Err(ShopError::InvalidIndex)
        }
    }
}

impl View for ShoppingList {
    type V = ListView;

    open spec fn view(&self) -> ListView {
        ListView {
            id: self.id@,
            title: self.title@,
            items: self.items@.map_values(|it: SLItem| it@),
        }
    }
}

impl Clone for ShoppingList {
    fn clone(&self) -> (r: Self)
        ensures
            r@ == self@,
    {
        let mut items: Vec<SLItem> = Vec::new();
        let mut i: usize = 0;
        while i < self.items.len()
            invariant
                i <= self.items@.len(),
                items@.len() == i,
                forall|k: int| 0 <= k < i ==> items@[k]@ == #[trigger] self.items@[k]@,
            decreases self.items@.len() - i,
        {
            items.push(self.items[i].clone());
            i = i + 1;
        }
        let r = ShoppingList { id: self.id.clone(), title: self.title.clone(), items };
        proof {
            assert(r@.items =~= self@.items);
        }
        r
    }
}

impl ShoppingList {
    /// Appends a free-text item with a fresh identifier and the given
    /// text; everything already on the list stays as it is.
    pub fn add(&mut self, string_representation: String)
        ensures
            exists|id: Seq<char>|
                #![auto]
                final(self)@ == old(self)@.added(id, string_representation@) && id.len() == 36,
    {
        let item = SLItem::new(string_representation);
        let ghost item_view = item@;
        self.items.push(item);
        proof {
            assert(self@.items =~= old(self)@.items.push(item_view));
            assert(self@ == old(self)@.added(item_view.id(), item_view->Text_text));
        }
    }

    /// Removes the entry at a zero-based index. A valid index gives `Ok`
    /// and drops exactly that entry; an out-of-range index gives
    /// `InvalidIndex` and leaves the list untouched.
    pub fn remove_by_index(&mut self, index: usize) -> (r: Result<(), ShopError>)
        ensures
            ({
                let out = old(self)@.remove_outcome(index as int);
                &&& out matches Ok(l) ==> r is Ok && final(self)@ == l
                &&& out matches Err(e) ==> r == Err::<(), ShopError>(e) && final(self)@ == old(
                    self,
                )@
            }),
    {
        if index < self.items.len() {
            self.items.remove(index);
            proof {
                assert(self@.items =~= old(self)@.items.remove(index as int));
            }
            Ok(())
        } else {
            Err(ShopError::InvalidIndex)
        }
    }

    /// Replaces the entry at a zero-based index by its free-text
    /// downgrade carrying the new text. A valid index gives `Ok`; an
    /// out-of-range index gives `InvalidIndex` and leaves the list
    /// untouched.
    pub fn edit_by_index(&mut self, index: usize, new_value: String) -> (r: Result<
        (),
        ShopError,
    >)
        ensures
            ({
                let out = old(self)@.edit_outcome(index as int, new_value@);
                &&& out matches Ok(l) ==> r is Ok && final(self)@ == l
                &&& out matches Err(e) ==> r == Err::<(), ShopError>(e) && final(self)@ == old(
                    self,
                )@
            }),
    {
        if index < self.items.len() {
            let item = &mut self.items[index];
            item.edit(new_value);
            proof {
                assert(self@.items =~= old(self)@.items.update(
                    index as int,
                    old(self)@.items[index as int].edited(new_value@),
                ));
            }
            Ok(())
        } else {
            Err(ShopError::InvalidIndex)
        }
    }
    /// Appends one free-text item, with a fresh identifier, for each
    /// non-empty line, in order; empty lines are skipped, and everything
    /// already on the list stays as it is.
    pub fn add_lines(&mut self, lines: Vec<String>)
        ensures
            final(self)@.id == old(self)@.id,
            final(self)@.title == old(self)@.title,
            ({
                let added = spec_nonempty_lines(lines@.map_values(|l: String| l@));
                &&& final(self)@.items.len() == old(self)@.items.len() + added.len()
                &&& final(self)@.items.take(old(self)@.items.len() as int) == old(self)@.items
                &&& forall|k: int|
                    0 <= k < added.len() ==> {
                        let it = #[trigger] final(self)@.items[old(self)@.items.len() + k];
                        &&& it is Text
                        &&& it->Text_text == added[k]
                        &&& it.id().len() == 36
                    }
            }),
    {
        let ghost lv = lines@.map_values(|l: String| l@);
        let ghost base = self@.items;
        let mut i: usize = 0;
        proof {
            reveal(Seq::filter);
            assert(lv.take(0) =~= Seq::<Seq<char>>::empty());
            assert(spec_nonempty_lines(lv.take(0)) =~= Seq::<Seq<char>>::empty());
            assert(self@.items.take(base.len() as int) =~= base);
        }
        while i < lines.len()
            invariant
                i <= lines@.len(),
                lv == lines@.map_values(|l: String| l@),
                self@.id == old(self)@.id,
                self@.title == old(self)@.title,
                base == old(self)@.items,
                self@.items.len() == base.len() + spec_nonempty_lines(lv.take(i as int)).len(),
                self@.items.take(base.len() as int) == base,
                forall|k: int|
                    0 <= k < spec_nonempty_lines(lv.take(i as int)).len() ==> {
                        let it = #[trigger] self@.items[base.len() + k];
                        &&& it is Text
                        &&& it->Text_text == spec_nonempty_lines(lv.take(i as int))[k]
                        &&& it.id().len() == 36
                    },
            decreases lines@.len() - i,
        {
            let line = lines[i].clone();
            let ghost t = lv.take(i + 1);
            let ghost before = self@;
            proof {
                reveal(Seq::filter);
                assert(t.drop_last() =~= lv.take(i as int));
                assert(t.last() == lv[i as int]);
                assert(line@ == lv[i as int]);
            }
            if !line.as_str().is_empty() {
                let ghost line_view = line@;
                self.add(line);
                proof {
                    reveal(Seq::filter);
                    let id = choose|id: Seq<char>|
                        #![auto]
                        self@ == before.added(id, line_view) && id.len() == 36;
                    assert(spec_nonempty_lines(t) =~= spec_nonempty_lines(lv.take(i as int)).push(
                        line_view,
                    ));
                    assert(self@.items =~= before.items.push(ItemView::Text { id, text: line_view }));
                    assert(self@.items.take(base.len() as int) =~= before.items.take(
                        base.len() as int,
                    ));
                }
            } else {
                proof {
                    reveal(Seq::filter);
                    assert(spec_nonempty_lines(t) =~= spec_nonempty_lines(lv.take(i as int)));
                }
            }
            i = i + 1;
        }
        proof {
            assert(lv.take(lines@.len() as int) =~= lv);
        }
    }
}

/// The non-empty entries of a sequence of lines, in order.
pub open spec fn spec_nonempty_lines(lines: Seq<Seq<char>>) -> Seq<Seq<char>> {
    lines.filter(|l: Seq<char>| l.len() > 0)
}

/// A list as last acknowledged by the server, tagged with the server's
/// change token and change identifier. Immutable once received; it is the
/// optimistic-concurrency witness every commit is based on.
pub struct SyncedShoppingList {
    pub list: ShoppingList,
    pub token: String,
    pub change_id: String,
}

/// Mathematical view of a [`SyncedShoppingList`].
pub struct SyncedListView {
    pub list: ListView,
    pub token: Seq<char>,
    pub change_id: Seq<char>,
}

impl View for SyncedShoppingList {
    type V = SyncedListView;

    open spec fn view(&self) -> SyncedListView {
        SyncedListView { list: self.list@, token: self.token@, change_id: self.change_id@ }
    }
}

impl Clone for SyncedShoppingList {
    fn clone(&self) -> (r: Self)
        ensures
            r@ == self@,
    {
        SyncedShoppingList {
            list: self.list.clone(),
            token: self.token.clone(),
            change_id: self.change_id.clone(),
        }
    }
}

/// What the server sends back from a sync: either a bare synced list, or
/// a record wrapping the list together with the category definitions.
pub enum SyncResponse {
    List(SyncedShoppingList),
    Response { list: SyncedShoppingList, categories: Vec<CategoryDefinition> },
}

/// Mathematical view of a [`SyncResponse`].
pub enum ResponseView {
    List(SyncedListView),
    Response { list: SyncedListView, categories: Seq<CategoryView> },
}

impl View for SyncResponse {
    type V = ResponseView;

    open spec fn view(&self) -> ResponseView {
        match self {
            SyncResponse::List(l) => ResponseView::List(l@),
            SyncResponse::Response { list, categories } => ResponseView::Response {
                list: list@,
                categories: categories@.map_values(|c: CategoryDefinition| c@),
            },
        }
    }
}

/// The working state of one invocation: the last acknowledged snapshot,
/// the working copy local commands mutate, and the working category
/// sequence. Divergence of `current_state` from `previous_sync.list` is
/// exactly the pending local edit.
pub struct State {
    pub previous_sync: SyncedShoppingList,
    pub current_state: ShoppingList,
    pub categories: Vec<CategoryDefinition>,
}

/// Mathematical view of a [`State`].
pub struct StateView {
    pub previous_sync: SyncedListView,
    pub current_state: ListView,
    pub categories: Seq<CategoryView>,
}

impl View for State {
    type V = StateView;

    open spec fn view(&self) -> StateView {
        StateView {
            previous_sync: self.previous_sync@,
            current_state: self.current_state@,
            categories: self.categories@.map_values(|c: CategoryDefinition| c@),
        }
    }
}

/// The local state an initial fetch gives rise to: the returned
/// snapshot becomes `previous_sync`, the working copy starts as that
/// snapshot's list, and the categories are the returned ones — empty
/// when the response carried none, since at this point the client knows
/// no others.
pub open spec fn spec_from_response(r: ResponseView) -> StateView {
    match r {
        ResponseView::List(l) => StateView {
            previous_sync: l,
            current_state: l.list,
            categories: Seq::empty(),
        },
        ResponseView::Response { list, categories } => StateView {
            previous_sync: list,
            current_state: list.list,
            categories,
        },
    }
}

/// The local state a commit response gives rise to: as on a fetch, the
/// returned snapshot becomes `previous_sync` and the working copy
/// restarts from its list; the categories are the returned ones when
/// the response carries them, else the pre-commit categories, preserved
/// unchanged — they are only refreshed when a category command asked
/// for them.
pub open spec fn spec_from_commit_response(
    r: ResponseView,
    previous_categories: Seq<CategoryView>,
) -> StateView {
    match r {
        ResponseView::List(l) => StateView {
            previous_sync: l,
            current_state: l.list,
            categories: previous_categories,
        },
        ResponseView::Response { list, categories } => StateView {
            previous_sync: list,
            current_state: list.list,
            categories,
        },
    }
}

impl State {
    /// Builds the local state for the response of the initial fetch.
    pub fn from_response(r: SyncResponse) -> (s: State)
        ensures
            s@ == spec_from_response(r@),
    {
        match r {
            SyncResponse::List(list) => {
                let s = State {
                    current_state: list.list.clone(),
                    previous_sync: list,
                    categories: Vec::new(),
                };
                proof {
                    assert(s@.categories =~= Seq::<CategoryView>::empty());
                }
                s
            },
            SyncResponse::Response { list, categories } => State {
                current_state: list.list.clone(),
                previous_sync: list,
                categories,
            },
        }
    }

    /// Rebuilds the local state after a commit: a response that carries
    /// categories refreshes them; one that carries none leaves the
    /// pre-commit categories exactly as they were.
    pub fn from_commit_response(r: SyncResponse, previous_categories: Vec<CategoryDefinition>) -> (s:
        State)
        ensures
            s@ == spec_from_commit_response(
                r@,
                previous_categories@.map_values(|c: CategoryDefinition| c@),
            ),
    {
        match r {
            SyncResponse::List(list) => State {
                current_state: list.list.clone(),
                previous_sync: list,
                categories: previous_categories,
            },
            SyncResponse::Response { list, categories } => State {
                current_state: list.list.clone(),
                previous_sync: list,
                categories,
            },
        }
    }
}

/// On any response, fetched or committed, the freshly built local
/// state's working copy is deep-equal to the acknowledged snapshot's
/// list: no local edit is pending right after a sync.
pub proof fn lemma_from_response_starts_clean(r: ResponseView, previous_categories: Seq<CategoryView>)
    ensures
        spec_from_response(r).current_state == spec_from_response(r).previous_sync.list,
        spec_from_commit_response(r, previous_categories).current_state
            == spec_from_commit_response(r, previous_categories).previous_sync.list,
{
}

/// Across a commit, the working categories survive exactly when the
/// response carries none, and are replaced by the returned sequence when
/// it does: the server's category state is never overwritten by silence.
pub proof fn lemma_commit_categories(r: ResponseView, previous_categories: Seq<CategoryView>)
    ensures
        r is List ==> spec_from_commit_response(r, previous_categories).categories
            == previous_categories,
        r matches ResponseView::Response { categories, .. } ==> spec_from_commit_response(
            r,
            previous_categories,
        ).categories == categories,
{
}

/// Editing any item, rich or free-text, preserves its identifier,
/// replaces its display text, and always yields the free-text shape.
pub proof fn lemma_edit_preserves_identity(it: ItemView, text: Seq<char>)
    ensures
        it.edited(text).id() == it.id(),
        it.edited(text) is Text,
        it.edited(text)->Text_text == text,
{
}

/// Any out-of-range index — in particular everything a zero or negative
/// 1-based index could stand for — is rejected with `InvalidIndex`, for
/// removal and for editing alike; the mutators' contracts then leave the
/// list unchanged, so no request is ever built from it.
pub proof fn lemma_out_of_range_rejected(l: ListView, i: int, text: Seq<char>)
    requires
        !(0 <= i < l.items.len()),
    ensures
        l.remove_outcome(i) == Err::<ListView, ShopError>(ShopError::InvalidIndex),
        l.edit_outcome(i, text) == Err::<ListView, ShopError>(ShopError::InvalidIndex),
{
}

/// Whether a commit should carry the working category sequence along.
/// Only category-affecting commands do, so that a stale local copy never
/// overwrites server-side category state.
#[derive(Clone, Copy, PartialEq, Eq, Structural, Debug)]
pub enum IncludeCategories {
    Yes,
    No,
}

/// One full sync request: the snapshot the edit is based on, the entire
/// current list (not a delta), what the client wants echoed back in the
/// response, and, for category commands only, the category sequence.
pub struct SyncRequest {
    pub previous_sync: SyncedShoppingList,
    pub current_state: ShoppingList,
    pub include_in_response: Vec<String>,
    pub categories: Option<Vec<CategoryDefinition>>,
}

/// Mathematical view of a [`SyncRequest`].
pub struct RequestView {
    pub previous_sync: SyncedListView,
    pub current_state: ListView,
    pub include_in_response: Seq<Seq<char>>,
    pub categories: Option<Seq<CategoryView>>,
}

impl View for SyncRequest {
    type V = RequestView;

    open spec fn view(&self) -> RequestView {
        RequestView {
            previous_sync: self.previous_sync@,
            current_state: self.current_state@,
            include_in_response: self.include_in_response@.map_values(|s: String| s@),
            categories: match self.categories {
                Some(cs) => Some(cs@.map_values(|c: CategoryDefinition| c@)),
                None => None,
            },
        }
    }
}

/// The request a local state gives rise to: it proves its base snapshot,
/// carries the full working list, always asks for categories in the
/// response, and attaches the working categories only when asked to.
pub open spec fn spec_from_state(s: StateView, include_categories: bool) -> RequestView {
    RequestView {
        previous_sync: s.previous_sync,
        current_state: s.current_state,
        include_in_response: seq!["categories"@],
        categories: if include_categories {
            Some(s.categories)
        } else {
            None
        },
    }
}

impl SyncRequest {
    /// A minimal request: base snapshot and current list, nothing asked
    /// for in the response, no categories attached.
    pub fn new(previous_sync: SyncedShoppingList, current_state: ShoppingList) -> (r: SyncRequest)
        ensures
            r.previous_sync == previous_sync,
            r.current_state == current_state,
            r@.include_in_response.len() == 0,
            r.categories is None,
    {
        SyncRequest { previous_sync, current_state, include_in_response: Vec::new(), categories: None }
    }

    /// The commit request for a local state.
    pub fn from_state(state: State, include_categories: IncludeCategories) -> (r: SyncRequest)
        ensures
            r@ == spec_from_state(state@, include_categories is Yes),
    {
        let mut include_in_response: Vec<String> = Vec::new();
        include_in_response.push(String::from_str("categories"));
        let r = SyncRequest {
            previous_sync: state.previous_sync,
            current_state: state.current_state,
            include_in_response,
            categories: match include_categories {
                IncludeCategories::Yes => Some(state.categories),
                IncludeCategories::No => None,
            },
        };
        proof {
            assert(r@.include_in_response =~= seq!["categories"@]);
        }
        r
    }
}

} // verus!
