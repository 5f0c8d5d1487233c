//! The fixed navigation of the HTML pages.
//!
//! Three pages exist — Upload, Inventory, Random — and every page shows the
//! same navigation bar, with the page currently served marked active.

use vstd::prelude::*;

use crate::text::str_eq;

verus! {

/// One entry of the navigation bar.
pub struct Page {
    pub active: bool,
    pub name: String,
    pub url: String,
}

/// The navigation entries for the page named `active_page`: always the
/// three fixed pages with their URLs, each active exactly when its name is
/// the page being served.
pub fn get_pages_lists_for_current_page(active_page: &str) -> (r: Vec<Page>)
    ensures
        r@.len() == 3,
        r@[0].name@ == "Upload"@ && r@[0].url@ == "/app/upload"@,
        r@[1].name@ == "Inventory"@ && r@[1].url@ == "/app/inventory"@,
        r@[2].name@ == "Random"@ && r@[2].url@ == "/app/random"@,
        r@[0].active == (active_page@ == "Upload"@),
        r@[1].active == (active_page@ == "Inventory"@),
        r@[2].active == (active_page@ == "Random"@),
{
    let mut pages: Vec<Page> = Vec::new();
    pages.push(
        Page {
            active: str_eq(active_page, "Upload"),
            name: String::from_str("Upload"),
            url: String::from_str("/app/upload"),
        },
    );
    pages.push(
        Page {
            active: str_eq(active_page, "Inventory"),
            name: String::from_str("Inventory"),
            url: String::from_str("/app/inventory"),
        },
    );
    pages.push(
        Page {
            active: str_eq(active_page, "Random"),
            name: String::from_str("Random"),
            url: String::from_str("/app/random"),
        },
    );
    pages
}

} // verus!
