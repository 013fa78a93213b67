//! Wire documents: decoding both response shapes, encoding requests,
//! and the full fetch–mutate–commit cycle against a stubbed server.

use shop_rs::{
    decode_response, encode_request, IncludeCategories, JsonValue, ShopError, State, SyncRequest,
};

fn s(text: &str) -> String {
    text.to_string()
}

fn jstr(text: &str) -> JsonValue {
    JsonValue::Str(s(text))
}

fn field(key: &str, value: JsonValue) -> (String, JsonValue) {
    (s(key), value)
}

fn text_item_json(id: &str, text: &str) -> JsonValue {
    JsonValue::Obj(vec![field("id", jstr(id)), field("stringRepresentation", jstr(text))])
}

/// A flat synced-list payload: list fields, token and changeId together.
fn synced_json(items: Vec<JsonValue>, token: &str) -> JsonValue {
    JsonValue::Obj(vec![
        field("id", jstr("list-1")),
        field("title", jstr("Demo")),
        field("items", JsonValue::Arr(items)),
        field("token", jstr(token)),
        field("changeId", jstr("change-1")),
    ])
}

fn obj_fields(v: &JsonValue) -> &Vec<(String, JsonValue)> {
    match v {
        JsonValue::Obj(fields) => fields,
        _ => panic!("expected an object"),
    }
}

fn get<'a>(fields: &'a [(String, JsonValue)], key: &str) -> &'a JsonValue {
    for (k, v) in fields {
        if k == key {
            return v;
        }
    }
    panic!("missing field");
}

fn has_key(fields: &[(String, JsonValue)], key: &str) -> bool {
    fields.iter().any(|(k, _)| k == key)
}

#[test]
fn decode_without_categories_leaves_none() {
    let payload = synced_json(vec![text_item_json("a", "eggs")], "tok-1");
    let response = decode_response(&payload).unwrap();
    let state = State::from_response(response);
    assert!(state.categories.is_empty());
    assert_eq!(state.current_state.items.len(), 1);
}

#[test]
fn decode_with_categories_takes_them_in_order() {
    let cat = |id: &str, name: &str| {
        JsonValue::Obj(vec![
            field("id", jstr(id)),
            field("name", jstr(name)),
            field("shortName", jstr("X")),
            field("color", jstr("#123456")),
            field("lightText", JsonValue::Bool(true)),
        ])
    };
    let payload = JsonValue::Obj(vec![
        field("list", synced_json(vec![], "tok-1")),
        field("categories", JsonValue::Arr(vec![cat("c1", "Dairy"), cat("c2", "Fruit")])),
    ]);
    let response = decode_response(&payload).unwrap();
    let state = State::from_response(response);
    assert_eq!(state.categories.len(), 2);
    assert_eq!(state.categories[0].id, "c1");
    assert_eq!(state.categories[0].name, "Dairy");
    assert!(state.categories[0].light_text);
    assert_eq!(state.categories[1].id, "c2");
}

#[test]
fn from_response_copies_snapshot_list() {
    let payload = synced_json(
        vec![text_item_json("a", "eggs"), text_item_json("b", "milk")],
        "tok-1",
    );
    let response = decode_response(&payload).unwrap();
    let state = State::from_response(response);
    assert_eq!(state.previous_sync.token, "tok-1");
    assert_eq!(state.current_state.id, state.previous_sync.list.id);
    assert_eq!(state.current_state.title, state.previous_sync.list.title);
    assert_eq!(state.current_state.items.len(), state.previous_sync.list.items.len());
    for (a, b) in state.current_state.items.iter().zip(state.previous_sync.list.items.iter()) {
        assert_eq!(a.id(), b.id());
    }
}

#[test]
fn decode_rich_item_with_amount() {
    let item = JsonValue::Obj(vec![
        field("id", jstr("a")),
        field("name", jstr("Flour")),
        field(
            "amount",
            JsonValue::Obj(vec![field("value", JsonValue::Num(150)), field("unit", jstr("kg"))]),
        ),
        field("category", jstr("c1")),
    ]);
    let payload = synced_json(vec![item], "tok-1");
    let state = State::from_response(decode_response(&payload).unwrap());
    assert_eq!(state.render(), "Demo\n1. 1.50 kg Flour\n");
}

#[test]
fn decode_rejects_missing_id() {
    let item = JsonValue::Obj(vec![field("stringRepresentation", jstr("eggs"))]);
    let payload = synced_json(vec![item], "tok-1");
    assert!(matches!(decode_response(&payload), Err(ShopError::DecodeError)));
}

#[test]
fn decode_rejects_nonstring_name() {
    let item = JsonValue::Obj(vec![field("id", jstr("a")), field("name", JsonValue::Num(3))]);
    let payload = synced_json(vec![item], "tok-1");
    assert!(matches!(decode_response(&payload), Err(ShopError::DecodeError)));
}

#[test]
fn decode_rejects_missing_token() {
    let payload = JsonValue::Obj(vec![
        field("id", jstr("list-1")),
        field("title", jstr("Demo")),
        field("items", JsonValue::Arr(vec![])),
    ]);
    assert!(matches!(decode_response(&payload), Err(ShopError::DecodeError)));
}

#[test]
fn decode_rejects_null_where_record_expected() {
    assert!(matches!(decode_response(&JsonValue::Null), Err(ShopError::DecodeError)));
}

#[test]
fn encode_omits_absent_optionals() {
    let amount_bare = shop_rs::Amount { value_hundredths: 600, unit: None };
    let item = shop_rs::SLItem::ServerRepr {
        id: s("a"),
        name: s("Eggs"),
        amount: Some(amount_bare),
        category: None,
    };
    let list = shop_rs::ShoppingList { id: s("l"), title: s("T"), items: vec![item] };
    let synced = shop_rs::SyncedShoppingList {
        list: list.clone(),
        token: s("tok"),
        change_id: s("ch"),
    };
    let request = SyncRequest::new(synced, list);
    let encoded = encode_request(&request);
    let fields = obj_fields(&encoded);
    assert!(!has_key(fields, "categories"));
    let current = obj_fields(get(fields, "currentState"));
    let items = match get(current, "items") {
        JsonValue::Arr(items) => items,
        _ => panic!("items must be an array"),
    };
    let item_fields = obj_fields(&items[0]);
    assert!(has_key(item_fields, "id"));
    assert!(has_key(item_fields, "name"));
    assert!(has_key(item_fields, "amount"));
    assert!(!has_key(item_fields, "category"));
    let amount_fields = obj_fields(get(item_fields, "amount"));
    assert!(has_key(amount_fields, "value"));
    assert!(!has_key(amount_fields, "unit"));
}

#[test]
fn from_state_carries_categories_only_when_asked() {
    let payload = synced_json(vec![], "tok-1");
    let state = State::from_response(decode_response(&payload).unwrap());
    let request = SyncRequest::from_state(state, IncludeCategories::No);
    assert!(request.categories.is_none());
    assert_eq!(request.include_in_response, vec![s("categories")]);

    let payload = synced_json(vec![], "tok-1");
    let state = State::from_response(decode_response(&payload).unwrap());
    let request = SyncRequest::from_state(state, IncludeCategories::Yes);
    assert!(request.categories.is_some());
}

fn category_json(id: &str, name: &str) -> JsonValue {
    JsonValue::Obj(vec![
        field("id", jstr(id)),
        field("name", jstr(name)),
        field("shortName", jstr("X")),
        field("color", jstr("#123456")),
        field("lightText", JsonValue::Bool(false)),
    ])
}

#[test]
fn commit_without_categories_preserves_previous() {
    // Fetch: the server hands out one category.
    let fetched = JsonValue::Obj(vec![
        field("list", synced_json(vec![], "tok-1")),
        field("categories", JsonValue::Arr(vec![category_json("c1", "Dairy")])),
    ]);
    let state = State::from_response(decode_response(&fetched).unwrap());
    assert_eq!(state.categories.len(), 1);

    // Commit: the response carries no categories; the working ones stay.
    let previous_categories = state.categories.clone();
    let committed = synced_json(vec![], "tok-2");
    let state =
        State::from_commit_response(decode_response(&committed).unwrap(), previous_categories);
    assert_eq!(state.categories.len(), 1);
    assert_eq!(state.categories[0].id, "c1");
    assert_eq!(state.categories[0].name, "Dairy");
    assert_eq!(state.previous_sync.token, "tok-2");
}

#[test]
fn commit_with_categories_replaces_previous() {
    let fetched = JsonValue::Obj(vec![
        field("list", synced_json(vec![], "tok-1")),
        field("categories", JsonValue::Arr(vec![category_json("c1", "Dairy")])),
    ]);
    let state = State::from_response(decode_response(&fetched).unwrap());

    let previous_categories = state.categories.clone();
    let committed = JsonValue::Obj(vec![
        field("list", synced_json(vec![], "tok-2")),
        field(
            "categories",
            JsonValue::Arr(vec![category_json("c2", "Fruit"), category_json("c3", "Bread")]),
        ),
    ]);
    let state =
        State::from_commit_response(decode_response(&committed).unwrap(), previous_categories);
    assert_eq!(state.categories.len(), 2);
    assert_eq!(state.categories[0].id, "c2");
    assert_eq!(state.categories[1].id, "c3");
}

/// A stub server: takes the committed current list out of the request
/// document and acknowledges it under a fresh token.
fn stub_server_echo(request_doc: JsonValue, new_token: &str) -> JsonValue {
    let fields = match request_doc {
        JsonValue::Obj(fields) => fields,
        _ => panic!("expected an object"),
    };
    let mut items = None;
    for (key, value) in fields {
        if key == "currentState" {
            let current = match value {
                JsonValue::Obj(current) => current,
                _ => panic!("expected an object"),
            };
            for (inner_key, inner_value) in current {
                if inner_key == "items" {
                    items = match inner_value {
                        JsonValue::Arr(items) => Some(items),
                        _ => panic!("items must be an array"),
                    };
                }
            }
        }
    }
    synced_json(items.expect("request carries the current list"), new_token)
}

#[test]
fn fetch_add_commit_round_trip() {
    // Fetch: the server holds ["eggs"].
    let fetched = synced_json(vec![text_item_json("a", "eggs")], "tok-1");
    let mut state = State::from_response(decode_response(&fetched).unwrap());
    let original_token = state.previous_sync.token.clone();
    assert_eq!(state.render(), "Demo\n1. eggs\n");

    // Mutate: add "milk" locally.
    state.current_state.add(s("milk"));
    assert_eq!(state.current_state.items.len(), 2);

    // Commit: the stub echoes the submitted list under a new token.
    let previous_categories = state.categories.clone();
    let request = SyncRequest::from_state(state, IncludeCategories::No);
    let request_doc = encode_request(&request);
    let response_doc = stub_server_echo(request_doc, "tok-2");
    let state =
        State::from_commit_response(decode_response(&response_doc).unwrap(), previous_categories);

    assert_eq!(state.render(), "Demo\n1. eggs\n2. milk\n");
    assert_ne!(state.previous_sync.token, original_token);
    assert_eq!(state.previous_sync.token, "tok-2");
    assert_eq!(state.current_state.items.len(), 2);
}
