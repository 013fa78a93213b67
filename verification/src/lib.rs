//! Client-side data model and reconciliation logic for a shared,
//! server-hosted shopping list.
//!
//! The library covers everything that carries protocol meaning: the item,
//! list and category model, the local working state, the construction of
//! sync requests, the interpretation of sync responses, category helpers,
//! and plain-text rendering. Network transport, configuration files and
//! console colouring are left to the surrounding application.

use vstd::prelude::*;

pub mod category;
pub mod codec;
pub mod error;
pub mod json;
pub mod ops;
pub mod render;
pub mod text;
pub mod types;

pub use crate::category::{derive_category_short_name, random_color};
pub use crate::codec::{decode_response, encode_request};
pub use crate::error::ShopError;
pub use crate::json::JsonValue;
pub use crate::ops::{add_category, edit_category_by_index, remove_category_by_index};
pub use crate::render::print_categories;
pub use crate::text::{parse_index, resolve_index};
pub use crate::types::{
    Amount, CategoryDefinition, IncludeCategories, SLItem, ShoppingList, State, SyncRequest,
    SyncResponse, SyncedShoppingList,
};

verus! {

/// Client configuration: which server, which list, and how to reach it.
pub struct Config {
    pub server: String,
    pub list_id: String,
    pub proxy: Option<String>,
    pub username: Option<String>,
}

impl Config {
    /// Base URL of the list's API endpoint: `{server}/api/{list_id}`.
    pub fn path(&self) -> (r: String)
        ensures
            r@ == self.server@ + "/api/"@ + self.list_id@,
    {
        let r = self.server.clone();
        let r = r.concat("/api/");
        let r = r.concat(self.list_id.as_str());
        r
    }
}

impl Default for Config {
    /// The demo server and the demo list, no proxy, no username.
    fn default() -> (c: Config)
        ensures
            c.server@ == "https://list.tilman.ninja"@,
            c.list_id@ == "Demo"@,
            c.proxy is None,
            c.username is None,
    {
        Config {
            server: String::from_str("https://list.tilman.ninja"),
            list_id: String::from_str("Demo"),
            proxy: None,
            username: None,
        }
    }
}

/// Overlays command-line overrides on a base configuration: each given
/// option replaces the corresponding field, absent options leave it alone.
pub fn gen_config(
    base: Config,
    server: Option<String>,
    list: Option<String>,
    proxy: Option<String>,
) -> (c: Config)
    ensures
        c.server == (match server {
            Some(s) => s,
            None => base.server,
        }),
        c.list_id == (match list {
            Some(l) => l,
            None => base.list_id,
        }),
        c.proxy == (match proxy {
            Some(p) => Some(p),
            None => base.proxy,
        }),
        c.username == base.username,
{
    let mut c = base;
    if let Some(s) = server {
        c.server = s;
    }
    if let Some(l) = list {
        c.list_id = l;
    }
    if let Some(p) = proxy {
        c.proxy = Some(p);
    }
    c
}

} // verus!
