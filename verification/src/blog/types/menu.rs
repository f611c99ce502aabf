//! Navigation menus.

use vstd::prelude::*;

verus! {

/// An entry of a menu, with the entries below it.
#[derive(Debug, PartialEq)]
pub struct MenuItem {
    pub title: String,
    pub url: String,
    pub target: Option<String>,
    pub children: Option<Vec<MenuItem>>,
}

/// A named menu.
#[derive(Debug, PartialEq)]
pub struct Menu {
    pub id: u16,
    pub name: String,
    pub items: Vec<MenuItem>,
}

/// A menu as a row of the database gives it, its items as they were
/// decoded, or `None` where their text did not decode.
#[derive(Debug, PartialEq)]
pub struct MenuRow {
    pub id: u16,
    pub name: String,
    pub items: Option<Vec<MenuItem>>,
}

impl Menu {
    /// The menu that a row holds. A row whose items did not decode holds
    /// none: the record is passed over.
    pub fn from_sql(row: MenuRow) -> (r: Option<Menu>)
        ensures
            r is Some <==> row.items is Some,
            r matches Some(m) ==> m == (Menu { id: row.id, name: row.name, items: row.items->0 }),
    {
        match row.items {
            Some(items) => Some(Menu { id: row.id, name: row.name, items }),
            None => None,
        }
    }
}

} // verus!
