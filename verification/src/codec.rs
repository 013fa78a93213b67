//! Interpretation of wire documents: how a sync response becomes model
//! values, and how a sync request becomes a wire document. Variants are
//! not tagged on the wire; records are told apart by the fields they
//! carry (a `name` field makes an item rich, a `categories` field makes
//! a response the wrapped shape), and absent optional fields are omitted
//! rather than sent as null.

use vstd::prelude::*;

use crate::error::ShopError;
use crate::json::{spec_obj_get, obj_get, JsonValue};
use crate::types::{
    Amount, AmountView, CategoryDefinition, CategoryView, ItemView, ListView, ResponseView,
    SLItem, ShoppingList, SyncResponse, SyncedListView, SyncedShoppingList,
};

verus! {

/// A required string field: its characters, or nothing when the field is
/// absent or not a string.
pub open spec fn spec_req_str_field(fields: Seq<(String, JsonValue)>, key: Seq<char>) -> Option<
    Seq<char>,
> {
    match spec_obj_get(fields, key) {
        Some(JsonValue::Str(s)) => Some(s@),
        _ => None,
    }
}

/// A required boolean field: its value, or nothing when the field is
/// absent or not a boolean.
pub open spec fn spec_req_bool_field(fields: Seq<(String, JsonValue)>, key: Seq<char>) -> Option<
    bool,
> {
    match spec_obj_get(fields, key) {
        Some(JsonValue::Bool(b)) => Some(b),
        _ => None,
    }
}

/// An optional string field: `Some(None)` when absent, `Some(Some(..))`
/// when a string, `None` (a decode error) when present as anything else.
pub open spec fn spec_opt_str_field(fields: Seq<(String, JsonValue)>, key: Seq<char>) -> Option<
    Option<Seq<char>>,
> {
    match spec_obj_get(fields, key) {
        None => Some(None),
        Some(JsonValue::Str(s)) => Some(Some(s@)),
        Some(_) => None,
    }
}

/// What an amount record means: a required fixed-point `value` and an
/// optional string `unit`.
pub open spec fn spec_amount_of_json(j: JsonValue) -> Option<AmountView> {
    match j {
        JsonValue::Obj(fields) => match (
            spec_obj_get(fields@, "value"@),
            spec_opt_str_field(fields@, "unit"@),
        ) {
            (Some(JsonValue::Num(n)), Some(unit)) => Some(
                AmountView { value_hundredths: n as int, unit },
            ),
            _ => None,
        },
        _ => None,
    }
}

/// What an item record means. A record carrying a `name` field is the
/// rich shape (requiring a string `id` and `name`, an optional amount
/// record and an optional string category reference); a record without
/// one is the free-text shape, requiring `id` and `stringRepresentation`.
pub open spec fn spec_item_of_json(j: JsonValue) -> Option<ItemView> {
    match j {
        JsonValue::Obj(fields) => match spec_req_str_field(fields@, "id"@) {
            Some(id) => if spec_obj_get(fields@, "name"@) is Some {
                match (
                    spec_req_str_field(fields@, "name"@),
                    spec_opt_amount_field(fields@),
                    spec_opt_str_field(fields@, "category"@),
                ) {
                    (Some(name), Some(amount), Some(category)) => Some(
                        ItemView::Rich { id, name, amount, category },
                    ),
                    _ => None,
                }
            } else {
                match spec_req_str_field(fields@, "stringRepresentation"@) {
                    Some(text) => Some(ItemView::Text { id, text }),
                    None => None,
                }
            },
            None => None,
        },
        _ => None,
    }
}

/// An optional amount field: absent, a well-formed amount record, or a
/// decode error.
pub open spec fn spec_opt_amount_field(fields: Seq<(String, JsonValue)>) -> Option<
    Option<AmountView>,
> {
    match spec_obj_get(fields, "amount"@) {
        None => Some(None),
        Some(aj) => match spec_amount_of_json(aj) {
            Some(a) => Some(Some(a)),
            None => None,
        },
    }
}

/// What an array of item records means: every element must decode.
pub open spec fn spec_items_of_json(elems: Seq<JsonValue>) -> Option<Seq<ItemView>>
    decreases elems.len(),
{
    if elems.len() == 0 {
        Some(Seq::empty())
    } else {
        match (spec_items_of_json(elems.drop_last()), spec_item_of_json(elems.last())) {
            (Some(items), Some(item)) => Some(items.push(item)),
            _ => None,
        }
    }
}

/// What a list record means: string `id` and `title`, and an `items`
/// array whose records all decode.
pub open spec fn spec_list_of_json(j: JsonValue) -> Option<ListView> {
    match j {
        JsonValue::Obj(fields) => match (
            spec_req_str_field(fields@, "id"@),
            spec_req_str_field(fields@, "title"@),
            spec_obj_get(fields@, "items"@),
        ) {
            (Some(id), Some(title), Some(JsonValue::Arr(elems))) => match spec_items_of_json(
                elems@,
            ) {
                Some(items) => Some(ListView { id, title, items }),
                None => None,
            },
            _ => None,
        },
        _ => None,
    }
}

/// What a synced-list record means: the list fields together with the
/// server's `token` and `changeId`, all at the same level.
pub open spec fn spec_synced_of_json(j: JsonValue) -> Option<SyncedListView> {
    match j {
        JsonValue::Obj(fields) => match (
            spec_list_of_json(j),
            spec_req_str_field(fields@, "token"@),
            spec_req_str_field(fields@, "changeId"@),
        ) {
            (Some(list), Some(token), Some(change_id)) => Some(
                SyncedListView { list, token, change_id },
            ),
            _ => None,
        },
        _ => None,
    }
}

/// What a category record means: string `id`, `name`, `shortName` and
/// `color`, and a boolean `lightText`.
pub open spec fn spec_category_of_json(j: JsonValue) -> Option<CategoryView> {
    match j {
        JsonValue::Obj(fields) => match (
            spec_req_str_field(fields@, "id"@),
            spec_req_str_field(fields@, "name"@),
            spec_req_str_field(fields@, "shortName"@),
            spec_req_str_field(fields@, "color"@),
            spec_req_bool_field(fields@, "lightText"@),
        ) {
            (Some(id), Some(name), Some(short_name), Some(color), Some(light_text)) => Some(
                CategoryView { id, name, short_name, color, light_text },
            ),
            _ => None,
        },
        _ => None,
    }
}

/// What an array of category records means: every element must decode.
pub open spec fn spec_categories_of_json(elems: Seq<JsonValue>) -> Option<Seq<CategoryView>>
    decreases elems.len(),
{
    if elems.len() == 0 {
        Some(Seq::empty())
    } else {
        match (
            spec_categories_of_json(elems.drop_last()),
            spec_category_of_json(elems.last()),
        ) {
            (Some(cats), Some(cat)) => Some(cats.push(cat)),
            _ => None,
        }
    }
}

/// What a sync response means. A record carrying a `categories` field is
/// the wrapped shape: its `list` field holds the synced list and its
/// `categories` array the definitions. A record without one must itself
/// be a synced-list record.
pub open spec fn spec_response_of_json(j: JsonValue) -> Option<ResponseView> {
    match j {
        JsonValue::Obj(fields) => if spec_obj_get(fields@, "categories"@) is Some {
            match (spec_obj_get(fields@, "list"@), spec_obj_get(fields@, "categories"@)) {
                (Some(lj), Some(JsonValue::Arr(cats))) => match (
                    spec_synced_of_json(lj),
                    spec_categories_of_json(cats@),
                ) {
                    (Some(list), Some(categories)) => Some(
                        ResponseView::Response { list, categories },
                    ),
                    _ => None,
                },
                _ => None,
            }
        } else {
            match spec_synced_of_json(j) {
                Some(list) => Some(ResponseView::List(list)),
                None => None,
            }
        },
        _ => None,
    }
}

/// Decodes an amount record.
pub fn decode_amount(j: &JsonValue) -> (r: Result<Amount, ShopError>)
    ensures
        ({
            let s = spec_amount_of_json(*j);
            &&& r matches Ok(a) ==> s == Some(a@)
            &&& r is Err ==> s is None && r == Err::<Amount, ShopError>(ShopError::DecodeError)
        }),
{
    let fields = match j {
        JsonValue::Obj(fields) => fields,
        _ => {
            return Err(ShopError::DecodeError);
        },
    };
    let k_value = String::from_str("value");
    let value_hundredths = match obj_get(fields, &k_value) {
        Some(JsonValue::Num(n)) => *n,
        _ => {
            return Err(ShopError::DecodeError);
        },
    };
    let k_unit = String::from_str("unit");
    let unit = match obj_get(fields, &k_unit) {
        None => None,
        Some(JsonValue::Str(u)) => Some(u.clone()),
        Some(_) => {
            return Err(ShopError::DecodeError);
        },
    };
    Ok(Amount { value_hundredths, unit })
}

/// Decodes an item record, telling the two shapes apart by the presence
/// of a `name` field.
pub fn decode_item(j: &JsonValue) -> (r: Result<SLItem, ShopError>)
    ensures
        ({
            let s = spec_item_of_json(*j);
            &&& r matches Ok(it) ==> s == Some(it@)
            &&& r is Err ==> s is None && r == Err::<SLItem, ShopError>(ShopError::DecodeError)
        }),
{
    let fields = match j {
        JsonValue::Obj(fields) => fields,
        _ => {
            return Err(ShopError::DecodeError);
        },
    };
    let k_id = String::from_str("id");
    let id = match obj_get(fields, &k_id) {
        Some(JsonValue::Str(s)) => s.clone(),
        _ => {
            return Err(ShopError::DecodeError);
        },
    };
    let k_name = String::from_str("name");
    match obj_get(fields, &k_name) {
        Some(JsonValue::Str(name)) => {
            let name = name.clone();
            let k_amount = String::from_str("amount");
            let amount = match obj_get(fields, &k_amount) {
                None => None,
                Some(aj) => match decode_amount(aj) {
                    Ok(a) => Some(a),
                    Err(_) => {
                        return Err(ShopError::DecodeError);
                    },
                },
            };
            let k_category = String::from_str("category");
            let category = match obj_get(fields, &k_category) {
                None => None,
                Some(JsonValue::Str(c)) => Some(c.clone()),
                Some(_) => {
                    return Err(ShopError::DecodeError);
                },
            };
            Ok(SLItem::ServerRepr { id, name, amount, category })
        },
        Some(_) => Err(ShopError::DecodeError),
        None => {
            let k_sr = String::from_str("stringRepresentation");
            match obj_get(fields, &k_sr) {
                Some(JsonValue::Str(t)) => Ok(
                    SLItem::StringRepr { id, string_representation: t.clone() },
                ),
                _ => Err(ShopError::DecodeError),
            }
        },
    }
}

/// If an item array decodes as a whole, each of its records decodes.
proof fn lemma_items_elem(elems: Seq<JsonValue>, i: int)
    requires
        0 <= i < elems.len(),
        spec_items_of_json(elems) is Some,
    ensures
        spec_item_of_json(elems[i]) is Some,
    decreases elems.len(),
{
    if i < elems.len() - 1 {
        lemma_items_elem(elems.drop_last(), i);
    }
}

/// Decodes an array of item records.
pub fn decode_items(elems: &Vec<JsonValue>) -> (r: Result<Vec<SLItem>, ShopError>)
    ensures
        ({
            let s = spec_items_of_json(elems@);
            &&& r matches Ok(v) ==> s == Some(v@.map_values(|it: SLItem| it@))
            &&& r is Err ==> s is None && r == Err::<Vec<SLItem>, ShopError>(
                ShopError::DecodeError,
            )
        }),
{
    let mut out: Vec<SLItem> = Vec::new();
    let mut i: usize = 0;
    proof {
        assert(elems@.take(0) =~= Seq::<JsonValue>::empty());
        assert(out@.map_values(|it: SLItem| it@) =~= Seq::<ItemView>::empty());
    }
    while i < elems.len()
        invariant
            i <= elems@.len(),
            spec_items_of_json(elems@.take(i as int)) == Some(
                out@.map_values(|it: SLItem| it@),
            ),
        decreases elems@.len() - i,
    {
        match decode_item(&elems[i]) {
            Ok(item) => {
                let ghost prev = out@.map_values(|it: SLItem| it@);
                let ghost iv = item@;
                out.push(item);
                proof {
                    let t = elems@.take(i + 1);
                    assert(t.drop_last() =~= elems@.take(i as int));
                    assert(t.last() == elems@[i as int]);
                    assert(out@.map_values(|it: SLItem| it@) =~= prev.push(iv));
                }
            },
            Err(_) => {
                proof {
                    if spec_items_of_json(elems@) is Some {
                        lemma_items_elem(elems@, i as int);
                    }
                }
                return Err(ShopError::DecodeError);
            },
        }
        i = i + 1;
    }
    proof {
        assert(elems@.take(elems@.len() as int) =~= elems@);
    }
    Ok(out)
}

/// Decodes a list record.
pub fn decode_list(j: &JsonValue) -> (r: Result<ShoppingList, ShopError>)
    ensures
        ({
            let s = spec_list_of_json(*j);
            &&& r matches Ok(l) ==> s == Some(l@)
            &&& r is Err ==> s is None && r == Err::<ShoppingList, ShopError>(
                ShopError::DecodeError,
            )
        }),
{
    let fields = match j {
        JsonValue::Obj(fields) => fields,
        _ => {
            return Err(ShopError::DecodeError);
        },
    };
    let k_id = String::from_str("id");
    let id = match obj_get(fields, &k_id) {
        Some(JsonValue::Str(s)) => s.clone(),
        _ => {
            return Err(ShopError::DecodeError);
        },
    };
    let k_title = String::from_str("title");
    let title = match obj_get(fields, &k_title) {
        Some(JsonValue::Str(s)) => s.clone(),
        _ => {
            return Err(ShopError::DecodeError);
        },
    };
    let k_items = String::from_str("items");
    let items = match obj_get(fields, &k_items) {
        Some(JsonValue::Arr(elems)) => match decode_items(elems) {
            Ok(v) => v,
            Err(_) => {
                return Err(ShopError::DecodeError);
            },
        },
        _ => {
            return Err(ShopError::DecodeError);
        },
    };
    Ok(ShoppingList { id, title, items })
}

/// Decodes a synced-list record: list fields plus `token` and
/// `changeId`.
pub fn decode_synced(j: &JsonValue) -> (r: Result<SyncedShoppingList, ShopError>)
    ensures
        ({
            let s = spec_synced_of_json(*j);
            &&& r matches Ok(l) ==> s == Some(l@)
            &&& r is Err ==> s is None && r == Err::<SyncedShoppingList, ShopError>(
                ShopError::DecodeError,
            )
        }),
{
    let list = match decode_list(j) {
        Ok(l) => l,
        Err(_) => {
            return Err(ShopError::DecodeError);
        },
    };
    let fields = match j {
        JsonValue::Obj(fields) => fields,
        _ => {
            return Err(ShopError::DecodeError);
        },
    };
    let k_token = String::from_str("token");
    let token = match obj_get(fields, &k_token) {
        Some(JsonValue::Str(s)) => s.clone(),
        _ => {
            return Err(ShopError::DecodeError);
        },
    };
    let k_change = String::from_str("changeId");
    let change_id = match obj_get(fields, &k_change) {
        Some(JsonValue::Str(s)) => s.clone(),
        _ => {
            return Err(ShopError::DecodeError);
        },
    };
    Ok(SyncedShoppingList { list, token, change_id })
}

/// Decodes a category record.
pub fn decode_category(j: &JsonValue) -> (r: Result<CategoryDefinition, ShopError>)
    ensures
        ({
            let s = spec_category_of_json(*j);
            &&& r matches Ok(c) ==> s == Some(c@)
            &&& r is Err ==> s is None && r == Err::<CategoryDefinition, ShopError>(
                ShopError::DecodeError,
            )
        }),
{
    let fields = match j {
        JsonValue::Obj(fields) => fields,
        _ => {
            return Err(ShopError::DecodeError);
        },
    };
    let k_id = String::from_str("id");
    let id = match obj_get(fields, &k_id) {
        Some(JsonValue::Str(s)) => s.clone(),
        _ => {
            return Err(ShopError::DecodeError);
        },
    };
    let k_name = String::from_str("name");
    let name = match obj_get(fields, &k_name) {
        Some(JsonValue::Str(s)) => s.clone(),
        _ => {
            return Err(ShopError::DecodeError);
        },
    };
    let k_short = String::from_str("shortName");
    let short_name = match obj_get(fields, &k_short) {
        Some(JsonValue::Str(s)) => s.clone(),
        _ => {
            return Err(ShopError::DecodeError);
        },
    };
    let k_color = String::from_str("color");
    let color = match obj_get(fields, &k_color) {
        Some(JsonValue::Str(s)) => s.clone(),
        _ => {
            return Err(ShopError::DecodeError);
        },
    };
    let k_light = String::from_str("lightText");
    let light_text = match obj_get(fields, &k_light) {
        Some(JsonValue::Bool(b)) => *b,
        _ => {
            return Err(ShopError::DecodeError);
        },
    };
    Ok(CategoryDefinition { id, name, short_name, color, light_text })
}

/// If a category array decodes as a whole, each of its records decodes.
proof fn lemma_categories_elem(elems: Seq<JsonValue>, i: int)
    requires
        0 <= i < elems.len(),
        spec_categories_of_json(elems) is Some,
    ensures
        spec_category_of_json(elems[i]) is Some,
    decreases elems.len(),
{
    if i < elems.len() - 1 {
        lemma_categories_elem(elems.drop_last(), i);
    }
}

/// Decodes an array of category records.
pub fn decode_categories(elems: &Vec<JsonValue>) -> (r: Result<Vec<CategoryDefinition>, ShopError>)
    ensures
        ({
            let s = spec_categories_of_json(elems@);
            &&& r matches Ok(v) ==> s == Some(v@.map_values(|c: CategoryDefinition| c@))
            &&& r is Err ==> s is None && r == Err::<Vec<CategoryDefinition>, ShopError>(
                ShopError::DecodeError,
            )
        }),
{
    let mut out: Vec<CategoryDefinition> = Vec::new();
    let mut i: usize = 0;
    proof {
        assert(elems@.take(0) =~= Seq::<JsonValue>::empty());
        assert(out@.map_values(|c: CategoryDefinition| c@) =~= Seq::<CategoryView>::empty());
    }
    while i < elems.len()
        invariant
            i <= elems@.len(),
            spec_categories_of_json(elems@.take(i as int)) == Some(
                out@.map_values(|c: CategoryDefinition| c@),
            ),
        decreases elems@.len() - i,
    {
        match decode_category(&elems[i]) {
            Ok(cat) => {
                let ghost prev = out@.map_values(|c: CategoryDefinition| c@);
                let ghost cv = cat@;
                out.push(cat);
                proof {
                    let t = elems@.take(i + 1);
                    assert(t.drop_last() =~= elems@.take(i as int));
                    assert(t.last() == elems@[i as int]);
                    assert(out@.map_values(|c: CategoryDefinition| c@) =~= prev.push(cv));
                }
            },
            Err(_) => {
                proof {
                    if spec_categories_of_json(elems@) is Some {
                        lemma_categories_elem(elems@, i as int);
                    }
                }
                return Err(ShopError::DecodeError);
            },
        }
        i = i + 1;
    }
    proof {
        assert(elems@.take(elems@.len() as int) =~= elems@);
    }
    Ok(out)
}

/// Decodes a sync response, accepting both shapes the server may send.
pub fn decode_response(j: &JsonValue) -> (r: Result<SyncResponse, ShopError>)
    ensures
        ({
            let s = spec_response_of_json(*j);
            &&& r matches Ok(resp) ==> s == Some(resp@)
            &&& r is Err ==> s is None && r == Err::<SyncResponse, ShopError>(
                ShopError::DecodeError,
            )
        }),
{
    let fields = match j {
        JsonValue::Obj(fields) => fields,
        _ => {
            return Err(ShopError::DecodeError);
        },
    };
    let k_categories = String::from_str("categories");
    match obj_get(fields, &k_categories) {
        Some(cj) => {
            let cats = match cj {
                JsonValue::Arr(cats) => cats,
                _ => {
                    return Err(ShopError::DecodeError);
                },
            };
            let k_list = String::from_str("list");
            let lj = match obj_get(fields, &k_list) {
                Some(lj) => lj,
                None => {
                    return Err(ShopError::DecodeError);
                },
            };
            let list = match decode_synced(lj) {
                Ok(l) => l,
                Err(_) => {
                    return Err(ShopError::DecodeError);
                },
            };
            let categories = match decode_categories(cats) {
                Ok(cs) => cs,
                Err(_) => {
                    return Err(ShopError::DecodeError);
                },
            };
            Ok(SyncResponse::Response { list, categories })
        },
        None => {
            match decode_synced(j) {
                Ok(list) => Ok(SyncResponse::List(list)),
                Err(_) => Err(ShopError::DecodeError),
            }
        },
    }
}

/// A payload without a `categories` field leaves the rebuilt local
/// state's categories untouched: empty on the initial fetch, and on a
/// commit exactly the pre-commit sequence. A payload with a `categories`
/// array leaves it with exactly that array's definitions, in order, on
/// either path.
pub proof fn lemma_response_categories(
    j: JsonValue,
    fields: Vec<(String, JsonValue)>,
    r: ResponseView,
    previous_categories: Seq<CategoryView>,
)
    requires
        j == JsonValue::Obj(fields),
        spec_response_of_json(j) == Some(r),
    ensures
        spec_obj_get(fields@, "categories"@) is None ==> crate::types::spec_from_response(
            r,
        ).categories =~= Seq::<CategoryView>::empty(),
        spec_obj_get(fields@, "categories"@) is None
            ==> crate::types::spec_from_commit_response(r, previous_categories).categories
            == previous_categories,
        spec_obj_get(fields@, "categories"@) matches Some(JsonValue::Arr(cats))
            ==> spec_categories_of_json(cats@) == Some(
            crate::types::spec_from_response(r).categories,
        ) && spec_categories_of_json(cats@) == Some(
            crate::types::spec_from_commit_response(r, previous_categories).categories,
        ),
{
}

/// The encoded form of a string value.
pub open spec fn json_is_str(j: JsonValue, s: Seq<char>) -> bool {
    j matches JsonValue::Str(x) && x@ == s
}

/// The encoded form of an amount: a `value` field, then a `unit` field
/// only when there is a unit.
pub open spec fn json_is_amount(j: JsonValue, a: AmountView) -> bool {
    &&& j matches JsonValue::Obj(fields)
    &&& fields@.len() == (if a.unit is Some {
        2int
    } else {
        1int
    })
    &&& fields@[0].0@ == "value"@
    &&& fields@[0].1 matches JsonValue::Num(n) && n == a.value_hundredths
    &&& (a.unit matches Some(u) ==> fields@[1].0@ == "unit"@ && json_is_str(fields@[1].1, u))
}

/// The encoded form of an item: the rich shape writes `id`, `name`, then
/// its optional fields only when present; the free-text shape writes
/// `id` and `stringRepresentation`. No shape ever writes a null.
pub open spec fn json_is_item(j: JsonValue, it: ItemView) -> bool {
    match it {
        ItemView::Text { id, text } => {
            &&& j matches JsonValue::Obj(fields)
            &&& fields@.len() == 2
            &&& fields@[0].0@ == "id"@ && json_is_str(fields@[0].1, id)
            &&& fields@[1].0@ == "stringRepresentation"@ && json_is_str(fields@[1].1, text)
        },
        ItemView::Rich { id, name, amount, category } => {
            &&& j matches JsonValue::Obj(fields)
            &&& fields@.len() == 2 + (if amount is Some {
                1int
            } else {
                0int
            }) + (if category is Some {
                1int
            } else {
                0int
            })
            &&& fields@[0].0@ == "id"@ && json_is_str(fields@[0].1, id)
            &&& fields@[1].0@ == "name"@ && json_is_str(fields@[1].1, name)
            &&& (amount matches Some(a) ==> fields@[2].0@ == "amount"@ && json_is_amount(
                fields@[2].1,
                a,
            ))
            &&& (category matches Some(c) ==> ({
                let ci = if amount is Some {
                    3int
                } else {
                    2int
                };
                fields@[ci].0@ == "category"@ && json_is_str(fields@[ci].1, c)
            }))
        },
    }
}

/// The encoded form of an item sequence.
pub open spec fn json_is_items(j: JsonValue, items: Seq<ItemView>) -> bool {
    &&& j matches JsonValue::Arr(elems)
    &&& elems@.len() == items.len()
    &&& forall|i: int| 0 <= i < items.len() ==> json_is_item(#[trigger] elems@[i], items[i])
}

/// The encoded form of a list: `id`, `title`, `items`.
pub open spec fn json_is_list(j: JsonValue, l: ListView) -> bool {
    &&& j matches JsonValue::Obj(fields)
    &&& fields@.len() == 3
    &&& fields@[0].0@ == "id"@ && json_is_str(fields@[0].1, l.id)
    &&& fields@[1].0@ == "title"@ && json_is_str(fields@[1].1, l.title)
    &&& fields@[2].0@ == "items"@ && json_is_items(fields@[2].1, l.items)
}

/// The encoded form of a synced list: the list fields and the server's
/// `token` and `changeId`, all at one level.
pub open spec fn json_is_synced(j: JsonValue, s: SyncedListView) -> bool {
    &&& j matches JsonValue::Obj(fields)
    &&& fields@.len() == 5
    &&& fields@[0].0@ == "id"@ && json_is_str(fields@[0].1, s.list.id)
    &&& fields@[1].0@ == "title"@ && json_is_str(fields@[1].1, s.list.title)
    &&& fields@[2].0@ == "items"@ && json_is_items(fields@[2].1, s.list.items)
    &&& fields@[3].0@ == "token"@ && json_is_str(fields@[3].1, s.token)
    &&& fields@[4].0@ == "changeId"@ && json_is_str(fields@[4].1, s.change_id)
}

/// The encoded form of a category definition.
pub open spec fn json_is_category(j: JsonValue, c: CategoryView) -> bool {
    &&& j matches JsonValue::Obj(fields)
    &&& fields@.len() == 5
    &&& fields@[0].0@ == "id"@ && json_is_str(fields@[0].1, c.id)
    &&& fields@[1].0@ == "name"@ && json_is_str(fields@[1].1, c.name)
    &&& fields@[2].0@ == "shortName"@ && json_is_str(fields@[2].1, c.short_name)
    &&& fields@[3].0@ == "color"@ && json_is_str(fields@[3].1, c.color)
    &&& fields@[4].0@ == "lightText"@ && fields@[4].1 == JsonValue::Bool(c.light_text)
}

/// The encoded form of a category sequence.
pub open spec fn json_is_categories(j: JsonValue, cs: Seq<CategoryView>) -> bool {
    &&& j matches JsonValue::Arr(elems)
    &&& elems@.len() == cs.len()
    &&& forall|i: int| 0 <= i < cs.len() ==> json_is_category(#[trigger] elems@[i], cs[i])
}

/// The encoded form of a sequence of plain strings.
pub open spec fn json_is_str_array(j: JsonValue, ss: Seq<Seq<char>>) -> bool {
    &&& j matches JsonValue::Arr(elems)
    &&& elems@.len() == ss.len()
    &&& forall|i: int| 0 <= i < ss.len() ==> json_is_str(#[trigger] elems@[i], ss[i])
}

/// The encoded form of a sync request: the base snapshot, the full
/// current list, what to echo back, and the category sequence only when
/// it is to be sent.
pub open spec fn json_is_request(j: JsonValue, r: crate::types::RequestView) -> bool {
    &&& j matches JsonValue::Obj(fields)
    &&& fields@.len() == (if r.categories is Some {
        4int
    } else {
        3int
    })
    &&& fields@[0].0@ == "previousSync"@ && json_is_synced(fields@[0].1, r.previous_sync)
    &&& fields@[1].0@ == "currentState"@ && json_is_list(fields@[1].1, r.current_state)
    &&& fields@[2].0@ == "includeInResponse"@ && json_is_str_array(
        fields@[2].1,
        r.include_in_response,
    )
    &&& (r.categories matches Some(cs) ==> fields@[3].0@ == "categories"@ && json_is_categories(
        fields@[3].1,
        cs,
    ))
}

proof fn lemma_amount_round_trip(j: JsonValue, a: AmountView)
    requires
        json_is_amount(j, a),
    ensures
        spec_amount_of_json(j) == Some(a),
{
    reveal_strlit("value");
    reveal_strlit("unit");
    reveal_with_fuel(spec_obj_get, 4);
    assert("value"@.len() == 5);
    assert("unit"@.len() == 4);
    let fields = j->Obj_0;
    assert(spec_obj_get(fields@, "value"@) == Some(fields@[0].1));
    match a.unit {
        Some(u) => {
            assert(fields@.drop_first()[0] == fields@[1]);
            assert(spec_obj_get(fields@.drop_first(), "unit"@) == Some(fields@[1].1));
        },
        None => {
            assert(fields@.drop_first().len() == 0);
            assert(spec_obj_get(fields@, "unit"@) is None);
        },
    }
}

proof fn lemma_item_round_trip(j: JsonValue, it: ItemView)
    requires
        json_is_item(j, it),
    ensures
        spec_item_of_json(j) == Some(it),
{
    reveal_strlit("id");
    reveal_strlit("name");
    reveal_strlit("amount");
    reveal_strlit("category");
    reveal_strlit("stringRepresentation");
    reveal_with_fuel(spec_obj_get, 8);
    assert("id"@.len() == 2);
    assert("name"@.len() == 4);
    assert("amount"@.len() == 6);
    assert("category"@.len() == 8);
    assert("stringRepresentation"@.len() == 20);
    let fields = j->Obj_0;
    let fs = fields@;
    assert(spec_obj_get(fs, "id"@) == Some(fs[0].1));
    match it {
        ItemView::Text { id, text } => {
            assert(fs.drop_first()[0] == fs[1]);
            assert(spec_obj_get(fs.drop_first(), "name"@) is None);
            assert(spec_obj_get(fs, "name"@) is None);
            assert(spec_obj_get(fs.drop_first(), "stringRepresentation"@) == Some(fs[1].1));
            assert(spec_obj_get(fs, "stringRepresentation"@) == Some(fs[1].1));
        },
        ItemView::Rich { id, name, amount, category } => {
            assert(fs.drop_first()[0] == fs[1]);
            assert(spec_obj_get(fs.drop_first(), "name"@) == Some(fs[1].1));
            assert(spec_obj_get(fs, "name"@) == Some(fs[1].1));
            let rest = fs.drop_first().drop_first();
            match amount {
                Some(a) => {
                    assert(rest[0] == fs[2]);
                    assert(spec_obj_get(rest, "amount"@) == Some(fs[2].1));
                    assert(spec_obj_get(fs, "amount"@) == Some(fs[2].1));
                    lemma_amount_round_trip(fs[2].1, a);
                    match category {
                        Some(c) => {
                            assert(rest.drop_first()[0] == fs[3]);
                            assert(spec_obj_get(rest.drop_first(), "category"@) == Some(fs[3].1));
                            assert(spec_obj_get(fs, "category"@) == Some(fs[3].1));
                        },
                        None => {
                            assert(rest.drop_first().len() == 0);
                            assert(spec_obj_get(fs, "category"@) is None);
                        },
                    }
                },
                None => {
                    match category {
                        Some(c) => {
                            assert(rest[0] == fs[2]);
                            assert(spec_obj_get(rest, "category"@) == Some(fs[2].1));
                            assert(spec_obj_get(fs, "category"@) == Some(fs[2].1));
                            assert(rest.drop_first().len() == 0);
                            assert(spec_obj_get(fs, "amount"@) is None);
                        },
                        None => {
                            assert(rest.len() == 0);
                            assert(spec_obj_get(fs, "amount"@) is None);
                            assert(spec_obj_get(fs, "category"@) is None);
                        },
                    }
                },
            }
        },
    }
}

proof fn lemma_items_round_trip(elems: Seq<JsonValue>, items: Seq<ItemView>)
    requires
        elems.len() == items.len(),
        forall|i: int| 0 <= i < items.len() ==> json_is_item(#[trigger] elems[i], items[i]),
    ensures
        spec_items_of_json(elems) == Some(items),
    decreases elems.len(),
{
    if elems.len() == 0 {
        assert(items =~= Seq::<ItemView>::empty());
    } else {
        lemma_items_round_trip(elems.drop_last(), items.drop_last());
        lemma_item_round_trip(elems.last(), items.last());
        assert(items.drop_last().push(items.last()) =~= items);
    }
}

/// A synced list encoded by this library decodes back to exactly itself:
/// when a server echoes the committed list document, the client reads
/// the same list out of it.
pub proof fn lemma_synced_round_trip(j: JsonValue, s: SyncedListView)
    requires
        json_is_synced(j, s),
    ensures
        spec_synced_of_json(j) == Some(s),
{
    reveal_strlit("id");
    reveal_strlit("title");
    reveal_strlit("items");
    reveal_strlit("token");
    reveal_strlit("changeId");
    reveal_with_fuel(spec_obj_get, 8);
    assert("id"@.len() == 2);
    assert("title"@.len() == 5);
    assert("items"@.len() == 5);
    assert("token"@.len() == 5);
    assert("changeId"@.len() == 8);
    assert("title"@[0] == 't' && "items"@[0] == 'i' && "token"@[0] == 't');
    assert("title"@[1] == 'i' && "token"@[1] == 'o');
    let fields = j->Obj_0;
    let fs = fields@;
    assert(spec_obj_get(fs, "id"@) == Some(fs[0].1));
    assert(fs.drop_first()[0] == fs[1]);
    assert(spec_obj_get(fs.drop_first(), "title"@) == Some(fs[1].1));
    assert(spec_obj_get(fs, "title"@) == Some(fs[1].1));
    let rest2 = fs.drop_first().drop_first();
    assert(rest2[0] == fs[2]);
    assert(spec_obj_get(rest2, "items"@) == Some(fs[2].1));
    assert(spec_obj_get(fs, "items"@) == Some(fs[2].1));
    let rest3 = rest2.drop_first();
    assert(rest3[0] == fs[3]);
    assert(spec_obj_get(rest3, "token"@) == Some(fs[3].1));
    assert(spec_obj_get(fs, "token"@) == Some(fs[3].1));
    let rest4 = rest3.drop_first();
    assert(rest4[0] == fs[4]);
    assert(spec_obj_get(rest4, "changeId"@) == Some(fs[4].1));
    assert(spec_obj_get(fs, "changeId"@) == Some(fs[4].1));
    let elems = fs[2].1->Arr_0;
    lemma_items_round_trip(elems@, s.list.items);
    assert(spec_list_of_json(j) == Some(s.list));
}

/// Encodes an amount, omitting an absent unit.
pub fn encode_amount(a: &Amount) -> (r: JsonValue)
    ensures
        json_is_amount(r, a@),
{
    let mut fields: Vec<(String, JsonValue)> = Vec::new();
    fields.push((String::from_str("value"), JsonValue::Num(a.value_hundredths)));
    match &a.unit {
        Some(u) => {
            fields.push((String::from_str("unit"), JsonValue::Str(u.clone())));
        },
        None => {},
    }
    JsonValue::Obj(fields)
}

/// Encodes an item by its shape, omitting absent optional fields.
pub fn encode_item(it: &SLItem) -> (r: JsonValue)
    ensures
        json_is_item(r, it@),
{
    match it {
        SLItem::ServerRepr { id, name, amount, category } => {
            let mut fields: Vec<(String, JsonValue)> = Vec::new();
            fields.push((String::from_str("id"), JsonValue::Str(id.clone())));
            fields.push((String::from_str("name"), JsonValue::Str(name.clone())));
            match amount {
                Some(a) => {
                    fields.push((String::from_str("amount"), encode_amount(a)));
                },
                None => {},
            }
            match category {
                Some(c) => {
                    fields.push((String::from_str("category"), JsonValue::Str(c.clone())));
                },
                None => {},
            }
            JsonValue::Obj(fields)
        },
        SLItem::StringRepr { id, string_representation } => {
            let mut fields: Vec<(String, JsonValue)> = Vec::new();
            fields.push((String::from_str("id"), JsonValue::Str(id.clone())));
            fields.push((
                String::from_str("stringRepresentation"),
                JsonValue::Str(string_representation.clone()),
            ));
            JsonValue::Obj(fields)
        },
    }
}

/// Encodes the item sequence of a list.
pub fn encode_items(items: &Vec<SLItem>) -> (r: JsonValue)
    ensures
        json_is_items(r, items@.map_values(|it: SLItem| it@)),
{
    let mut elems: Vec<JsonValue> = Vec::new();
    let mut i: usize = 0;
    while i < items.len()
        invariant
            i <= items@.len(),
            elems@.len() == i,
            forall|k: int|
                0 <= k < i ==> json_is_item(#[trigger] elems@[k], items@[k]@),
        decreases items@.len() - i,
    {
        elems.push(encode_item(&items[i]));
        i = i + 1;
    }
    JsonValue::Arr(elems)
}

/// Encodes a bare list record.
pub fn encode_list(l: &ShoppingList) -> (r: JsonValue)
    ensures
        json_is_list(r, l@),
{
    let mut fields: Vec<(String, JsonValue)> = Vec::new();
    fields.push((String::from_str("id"), JsonValue::Str(l.id.clone())));
    fields.push((String::from_str("title"), JsonValue::Str(l.title.clone())));
    fields.push((String::from_str("items"), encode_items(&l.items)));
    JsonValue::Obj(fields)
}

/// Encodes a synced-list record, list fields flattened beside the token.
pub fn encode_synced(s: &SyncedShoppingList) -> (r: JsonValue)
    ensures
        json_is_synced(r, s@),
{
    let mut fields: Vec<(String, JsonValue)> = Vec::new();
    fields.push((String::from_str("id"), JsonValue::Str(s.list.id.clone())));
    fields.push((String::from_str("title"), JsonValue::Str(s.list.title.clone())));
    fields.push((String::from_str("items"), encode_items(&s.list.items)));
    fields.push((String::from_str("token"), JsonValue::Str(s.token.clone())));
    fields.push((String::from_str("changeId"), JsonValue::Str(s.change_id.clone())));
    JsonValue::Obj(fields)
}

/// Encodes a category record.
pub fn encode_category(c: &CategoryDefinition) -> (r: JsonValue)
    ensures
        json_is_category(r, c@),
{
    let mut fields: Vec<(String, JsonValue)> = Vec::new();
    fields.push((String::from_str("id"), JsonValue::Str(c.id.clone())));
    fields.push((String::from_str("name"), JsonValue::Str(c.name.clone())));
    fields.push((String::from_str("shortName"), JsonValue::Str(c.short_name.clone())));
    fields.push((String::from_str("color"), JsonValue::Str(c.color.clone())));
    fields.push((String::from_str("lightText"), JsonValue::Bool(c.light_text)));
    JsonValue::Obj(fields)
}

/// Encodes a category sequence.
pub fn encode_categories(cs: &Vec<CategoryDefinition>) -> (r: JsonValue)
    ensures
        json_is_categories(r, cs@.map_values(|c: CategoryDefinition| c@)),
{
    let mut elems: Vec<JsonValue> = Vec::new();
    let mut i: usize = 0;
    while i < cs.len()
        invariant
            i <= cs@.len(),
            elems@.len() == i,
            forall|k: int|
                0 <= k < i ==> json_is_category(#[trigger] elems@[k], cs@[k]@),
        decreases cs@.len() - i,
    {
        elems.push(encode_category(&cs[i]));
        i = i + 1;
    }
    JsonValue::Arr(elems)
}

/// Encodes a sync request as the document the server expects, omitting
/// the category sequence when it is not to be sent.
pub fn encode_request(req: &crate::types::SyncRequest) -> (r: JsonValue)
    ensures
        json_is_request(r, req@),
{
    let mut want_back: Vec<JsonValue> = Vec::new();
    let mut i: usize = 0;
    while i < req.include_in_response.len()
        invariant
            i <= req.include_in_response@.len(),
            want_back@.len() == i,
            forall|k: int|
                0 <= k < i ==> json_is_str(
                    #[trigger] want_back@[k],
                    req.include_in_response@[k]@,
                ),
        decreases req.include_in_response@.len() - i,
    {
        want_back.push(JsonValue::Str(req.include_in_response[i].clone()));
        i = i + 1;
    }
    let mut fields: Vec<(String, JsonValue)> = Vec::new();
    fields.push((String::from_str("previousSync"), encode_synced(&req.previous_sync)));
    fields.push((String::from_str("currentState"), encode_list(&req.current_state)));
    fields.push((String::from_str("includeInResponse"), JsonValue::Arr(want_back)));
    match &req.categories {
        Some(cs) => {
            fields.push((String::from_str("categories"), encode_categories(cs)));
        },
        None => {},
    }
    JsonValue::Obj(fields)
}

} // verus!
