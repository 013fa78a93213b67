//! Parsing, short-name derivation, colours and category rendering.

use shop_rs::ops::{add_category, edit_category_by_index, remove_category_by_index};
use shop_rs::render::print_categories;
use shop_rs::text::parse_index;
use shop_rs::{derive_category_short_name, random_color, CategoryDefinition, ShopError};

fn s(text: &str) -> String {
    text.to_string()
}

fn category(id: &str, name: &str, short: &str, color: &str) -> CategoryDefinition {
    CategoryDefinition {
        id: s(id),
        name: s(name),
        short_name: s(short),
        color: s(color),
        light_text: false,
    }
}

#[test]
fn short_name_collects_uppercase_letters() {
    assert_eq!(derive_category_short_name("Fresh Fruit"), "FF");
}

#[test]
fn short_name_takes_first_three_when_no_uppercase() {
    assert_eq!(derive_category_short_name("milk"), "MIL");
}

#[test]
fn short_name_of_short_word_is_whole_word() {
    assert_eq!(derive_category_short_name("ok"), "OK");
}

#[test]
fn short_name_single_uppercase() {
    assert_eq!(derive_category_short_name("Dairy"), "D");
}

#[test]
fn parse_index_is_one_based() {
    assert_eq!(parse_index("1"), Some(0));
    assert_eq!(parse_index("3"), Some(2));
    assert_eq!(parse_index("10"), Some(9));
}

#[test]
fn parse_index_rejects_zero() {
    assert_eq!(parse_index("0"), None);
}

#[test]
fn parse_index_rejects_junk() {
    assert_eq!(parse_index(""), None);
    assert_eq!(parse_index("abc"), None);
    assert_eq!(parse_index("1a"), None);
    assert_eq!(parse_index("-1"), None);
    assert_eq!(parse_index(" 2"), None);
}

#[test]
fn parse_index_rejects_overflow() {
    assert_eq!(parse_index("99999999999999999999999999"), None);
}

#[test]
fn resolve_index_fails_with_invalid_index() {
    assert_eq!(shop_rs::resolve_index("2"), Ok(1));
    assert_eq!(shop_rs::resolve_index("0"), Err(ShopError::InvalidIndex));
    assert_eq!(shop_rs::resolve_index("-3"), Err(ShopError::InvalidIndex));
    assert_eq!(shop_rs::resolve_index("eggs"), Err(ShopError::InvalidIndex));
}

#[test]
fn random_color_is_hex_rgb() {
    let c = random_color();
    assert_eq!(c.len(), 7);
    let bytes = c.as_bytes();
    assert_eq!(bytes[0], b'#');
    for &b in &bytes[1..] {
        assert!(b.is_ascii_hexdigit());
        assert!(!b.is_ascii_uppercase());
    }
}

#[test]
fn random_colors_are_not_all_alike() {
    let first = random_color();
    let mut saw_other = false;
    for _ in 0..64 {
        if random_color() != first {
            saw_other = true;
        }
    }
    assert!(saw_other);
}

#[test]
fn to_string_long_shows_short_and_name() {
    let c = category("c1", "Fresh Fruit", "FF", "#00ff00");
    assert_eq!(c.to_string_long(), "(FF) Fresh Fruit");
}

#[test]
fn print_categories_numbers_lines() {
    let cats = vec![
        category("c1", "Dairy", "D", "#ffffff"),
        category("c2", "Fresh Fruit", "FF", "#00ff00"),
    ];
    assert_eq!(print_categories(&cats), "1. (D) Dairy\n2. (FF) Fresh Fruit\n");
}

#[test]
fn print_categories_pads_to_count_width() {
    let mut cats = Vec::new();
    for i in 0..10 {
        cats.push(category(&format!("c{}", i), "Dairy", "D", "#ffffff"));
    }
    let text = print_categories(&cats);
    let lines: Vec<&str> = text.lines().collect();
    assert_eq!(lines.len(), 10);
    assert_eq!(lines[0], " 1. (D) Dairy");
    assert_eq!(lines[9], "10. (D) Dairy");
}

fn empty_state() -> shop_rs::State {
    shop_rs::State {
        previous_sync: shop_rs::SyncedShoppingList {
            list: shop_rs::ShoppingList { id: s("l"), title: s("T"), items: Vec::new() },
            token: s("tok"),
            change_id: s("ch"),
        },
        current_state: shop_rs::ShoppingList { id: s("l"), title: s("T"), items: Vec::new() },
        categories: Vec::new(),
    }
}

#[test]
fn add_category_defaults_short_name_and_color() {
    let mut state = empty_state();
    add_category(&mut state, s("Fresh Fruit"), None, None, false);
    assert_eq!(state.categories.len(), 1);
    let c = &state.categories[0];
    assert_eq!(c.name, "Fresh Fruit");
    assert_eq!(c.short_name, "FF");
    assert_eq!(c.color.len(), 7);
    assert!(c.color.starts_with('#'));
    assert_eq!(c.id.len(), 36);
    assert!(!c.light_text);
}

#[test]
fn add_category_keeps_given_values() {
    let mut state = empty_state();
    add_category(&mut state, s("Dairy"), Some(s("DY")), Some(s("#123abc")), true);
    let c = &state.categories[0];
    assert_eq!(c.short_name, "DY");
    assert_eq!(c.color, "#123abc");
    assert!(c.light_text);
}

#[test]
fn remove_category_by_index_drops_exactly_one() {
    let mut state = empty_state();
    state.categories.push(category("c1", "Dairy", "D", "#ffffff"));
    state.categories.push(category("c2", "Fresh Fruit", "FF", "#00ff00"));
    assert_eq!(remove_category_by_index(&mut state, 0), Ok(()));
    assert_eq!(state.categories.len(), 1);
    assert_eq!(state.categories[0].id, "c2");
}

#[test]
fn remove_category_invalid_index_fails() {
    let mut state = empty_state();
    state.categories.push(category("c1", "Dairy", "D", "#ffffff"));
    assert_eq!(remove_category_by_index(&mut state, 1), Err(ShopError::InvalidIndex));
    assert_eq!(state.categories.len(), 1);
}

#[test]
fn edit_category_by_index_overrides_given_fields() {
    let mut state = empty_state();
    state.categories.push(category("c1", "Dairy", "D", "#ffffff"));
    assert_eq!(
        edit_category_by_index(&mut state, 0, Some(s("Cheese")), None, None, Some(true)),
        Ok(())
    );
    let c = &state.categories[0];
    assert_eq!(c.id, "c1");
    assert_eq!(c.name, "Cheese");
    assert_eq!(c.short_name, "D");
    assert_eq!(c.color, "#ffffff");
    assert!(c.light_text);
}

#[test]
fn edit_category_invalid_index_fails() {
    let mut state = empty_state();
    state.categories.push(category("c1", "Dairy", "D", "#ffffff"));
    assert_eq!(
        edit_category_by_index(&mut state, 5, Some(s("X")), None, None, None),
        Err(ShopError::InvalidIndex)
    );
    assert_eq!(state.categories[0].name, "Dairy");
}
