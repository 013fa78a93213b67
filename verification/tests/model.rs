//! The item and list model, local commands, rendering, configuration.

use shop_rs::{
    gen_config, Amount, CategoryDefinition, Config, SLItem, ShopError, ShoppingList, State,
    SyncedShoppingList,
};

fn s(text: &str) -> String {
    text.to_string()
}

fn text_item(id: &str, text: &str) -> SLItem {
    SLItem::with_id(s(id), s(text))
}

fn list_of(items: Vec<SLItem>) -> ShoppingList {
    ShoppingList { id: s("list-1"), title: s("Demo"), items }
}

fn state_of(items: Vec<SLItem>, categories: Vec<CategoryDefinition>) -> State {
    let current = list_of(items);
    State {
        previous_sync: SyncedShoppingList {
            list: current.clone(),
            token: s("tok-1"),
            change_id: s("ch-1"),
        },
        current_state: current,
        categories,
    }
}

#[test]
fn item_new_generates_uuid_ids() {
    let a = SLItem::new(s("eggs"));
    let b = SLItem::new(s("eggs"));
    assert_eq!(a.id().len(), 36);
    assert_eq!(b.id().len(), 36);
    assert_ne!(a.id(), b.id());
    assert!(matches!(a, SLItem::StringRepr { .. }));
}

#[test]
fn item_edit_keeps_id_and_downgrades() {
    let mut item = SLItem::ServerRepr {
        id: s("id-1"),
        name: s("Eggs"),
        amount: Some(Amount { value_hundredths: 600, unit: None }),
        category: Some(s("cat-1")),
    };
    item.edit(s("ten eggs"));
    match item {
        SLItem::StringRepr { id, string_representation } => {
            assert_eq!(id, "id-1");
            assert_eq!(string_representation, "ten eggs");
        },
        SLItem::ServerRepr { .. } => panic!("edit must downgrade to the free-text shape"),
    }
}

#[test]
fn list_add_appends_one_item() {
    let mut list = list_of(vec![text_item("a", "eggs")]);
    list.add(s("milk"));
    assert_eq!(list.items.len(), 2);
    match &list.items[1] {
        SLItem::StringRepr { id, string_representation } => {
            assert_eq!(string_representation, "milk");
            assert_eq!(id.len(), 36);
        },
        SLItem::ServerRepr { .. } => panic!("added items carry raw text"),
    }
}

#[test]
fn add_lines_skips_empty_lines() {
    let mut list = list_of(vec![text_item("a", "eggs")]);
    list.add_lines(vec![s("milk"), s(""), s("bread"), s("")]);
    assert_eq!(list.items.len(), 3);
    match &list.items[1] {
        SLItem::StringRepr { id, string_representation } => {
            assert_eq!(string_representation, "milk");
            assert_eq!(id.len(), 36);
        },
        SLItem::ServerRepr { .. } => panic!("added items carry raw text"),
    }
    match &list.items[2] {
        SLItem::StringRepr { string_representation, .. } => {
            assert_eq!(string_representation, "bread")
        },
        SLItem::ServerRepr { .. } => panic!("added items carry raw text"),
    }
}

#[test]
fn list_remove_by_index_drops_exactly_one() {
    let mut list = list_of(vec![text_item("a", "eggs"), text_item("b", "milk")]);
    assert_eq!(list.remove_by_index(0), Ok(()));
    assert_eq!(list.items.len(), 1);
    assert_eq!(list.items[0].id().as_str(), "b");
}

#[test]
fn list_remove_invalid_index_fails_and_changes_nothing() {
    let mut list = list_of(vec![text_item("a", "eggs")]);
    assert_eq!(list.remove_by_index(1), Err(ShopError::InvalidIndex));
    assert_eq!(list.remove_by_index(usize::MAX), Err(ShopError::InvalidIndex));
    assert_eq!(list.items.len(), 1);
    assert_eq!(list.items[0].id().as_str(), "a");
}

#[test]
fn list_edit_by_index_replaces_text_in_place() {
    let mut list = list_of(vec![text_item("a", "eggs"), text_item("b", "milk")]);
    assert_eq!(list.edit_by_index(1, s("oat milk")), Ok(()));
    assert_eq!(list.items.len(), 2);
    match &list.items[1] {
        SLItem::StringRepr { id, string_representation } => {
            assert_eq!(id, "b");
            assert_eq!(string_representation, "oat milk");
        },
        SLItem::ServerRepr { .. } => panic!("edited items carry raw text"),
    }
    assert_eq!(list.items[0].id().as_str(), "a");
}

#[test]
fn list_edit_invalid_index_fails_and_changes_nothing() {
    let mut list = list_of(vec![text_item("a", "eggs")]);
    assert_eq!(list.edit_by_index(1, s("x")), Err(ShopError::InvalidIndex));
    match &list.items[0] {
        SLItem::StringRepr { string_representation, .. } => {
            assert_eq!(string_representation, "eggs")
        },
        SLItem::ServerRepr { .. } => panic!("unexpected shape"),
    }
}

#[test]
fn render_numbers_items_from_one() {
    let state = state_of(vec![text_item("a", "eggs"), text_item("b", "milk")], Vec::new());
    assert_eq!(state.render(), "Demo\n1. eggs\n2. milk\n");
}

#[test]
fn render_pads_index_to_count_width() {
    let mut items = Vec::new();
    for i in 0..10 {
        items.push(text_item(&format!("id{}", i), "eggs"));
    }
    let state = state_of(items, Vec::new());
    let text = state.render();
    let lines: Vec<&str> = text.lines().collect();
    assert_eq!(lines[0], "Demo");
    assert_eq!(lines[1], " 1. eggs");
    assert_eq!(lines[10], "10. eggs");
}

#[test]
fn render_shows_amount_to_two_decimals() {
    let rich = SLItem::ServerRepr {
        id: s("a"),
        name: s("Flour"),
        amount: Some(Amount { value_hundredths: 150, unit: Some(s("kg")) }),
        category: None,
    };
    let state = state_of(vec![rich], Vec::new());
    assert_eq!(state.render(), "Demo\n1. 1.50 kg Flour\n");
}

#[test]
fn render_shows_negative_and_unitless_amounts() {
    let rich = SLItem::ServerRepr {
        id: s("a"),
        name: s("Balance"),
        amount: Some(Amount { value_hundredths: -50, unit: None }),
        category: None,
    };
    let state = state_of(vec![rich], Vec::new());
    assert_eq!(state.render(), "Demo\n1. -0.50 Balance\n");
}

#[test]
fn render_marks_resolved_categories_only() {
    let dairy = CategoryDefinition {
        id: s("cat-dairy"),
        name: s("Dairy"),
        short_name: s("D"),
        color: s("#ffffff"),
        light_text: false,
    };
    let milk = SLItem::ServerRepr {
        id: s("a"),
        name: s("Milk"),
        amount: None,
        category: Some(s("cat-dairy")),
    };
    let bread = SLItem::ServerRepr {
        id: s("b"),
        name: s("Bread"),
        amount: None,
        category: Some(s("cat-unknown")),
    };
    let state = state_of(vec![milk, bread], vec![dairy]);
    assert_eq!(state.render(), "Demo\n1. (D) Milk\n2. Bread\n");
}

#[test]
fn config_path_joins_server_and_list() {
    let config = Config {
        server: s("https://example.net"),
        list_id: s("Demo"),
        proxy: None,
        username: None,
    };
    assert_eq!(config.path(), "https://example.net/api/Demo");
}

#[test]
fn config_default_points_at_demo_list() {
    let config = Config::default();
    assert_eq!(config.server, "https://list.tilman.ninja");
    assert_eq!(config.list_id, "Demo");
    assert!(config.proxy.is_none());
    assert!(config.username.is_none());
}

#[test]
fn gen_config_overlays_only_given_options() {
    let base = Config {
        server: s("https://example.net"),
        list_id: s("Demo"),
        proxy: None,
        username: Some(s("ada")),
    };
    let config = gen_config(base, Some(s("https://other.example")), None, Some(s("proxy:80")));
    assert_eq!(config.server, "https://other.example");
    assert_eq!(config.list_id, "Demo");
    assert_eq!(config.proxy, Some(s("proxy:80")));
    assert_eq!(config.username, Some(s("ada")));
}
