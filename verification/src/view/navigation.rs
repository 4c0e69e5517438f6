use crate::text::same_text;
use vstd::prelude::*;

verus! {

pub const HOME_ENTRY: &'static str = "Home";

pub const CATEGORIES_ENTRY: &'static str = "Categories";

pub const PRODUCTS_ENTRY: &'static str = "Products";

/// The pages of the program.
#[derive(Clone, Copy, Debug, PartialEq, Eq, Structural)]
pub enum Page {
    Home,
    Categories,
    Products,
}

/// The entries of the side menu, in the order they are listed.
pub fn menu_entries() -> (v: Vec<&'static str>)
    ensures
        v@.len() == 3,
        v@[0]@ == HOME_ENTRY@,
        v@[1]@ == CATEGORIES_ENTRY@,
        v@[2]@ == PRODUCTS_ENTRY@,
{
    let mut v: Vec<&'static str> = Vec::new();
    v.push(HOME_ENTRY);
    v.push(CATEGORIES_ENTRY);
    v.push(PRODUCTS_ENTRY);
    v
}

/// The page that a selected menu entry shows; none for any other name.
pub fn page_of(entry: &str) -> (p: Option<Page>)
    ensures
        entry@ == HOME_ENTRY@ ==> p == Some(Page::Home),
        entry@ == CATEGORIES_ENTRY@ ==> p == Some(Page::Categories),
        entry@ == PRODUCTS_ENTRY@ ==> p == Some(Page::Products),
        entry@ != HOME_ENTRY@ && entry@ != CATEGORIES_ENTRY@ && entry@ != PRODUCTS_ENTRY@
            ==> p is None,
{
    proof {
        reveal_strlit("Home");
        reveal_strlit("Categories");
        reveal_strlit("Products");
        assert(HOME_ENTRY@.len() != CATEGORIES_ENTRY@.len());
        assert(HOME_ENTRY@.len() != PRODUCTS_ENTRY@.len());
        assert(CATEGORIES_ENTRY@.len() != PRODUCTS_ENTRY@.len());
    }
    if same_text(entry, HOME_ENTRY) {
        Some(Page::Home)
    } else if same_text(entry, CATEGORIES_ENTRY) {
        Some(Page::Categories)
    } else if same_text(entry, PRODUCTS_ENTRY) {
        Some(Page::Products)
    } else {
        None
    }
}

pub const LOCAL_SHARE_SUFFIX: &'static str = "/.local/share";

pub const APP_DIR_SUFFIX: &'static str = "/caducity-sys";

pub const DATABASE_SUFFIX: &'static str = "/caducity.sqlite3";

/// The directory for the program's data: `XDG_DATA_HOME` when it is set, and
/// otherwise `.local/share` in the home directory.
pub fn data_home(xdg_data_home: Option<&str>, home: &str) -> (s: String)
    ensures
        match xdg_data_home {
            Some(x) => s@ == x@,
            None => s@ == home@ + LOCAL_SHARE_SUFFIX@,
        },
{
    match xdg_data_home {
        Some(x) => String::from_str(x),
        None => {
            let mut s = String::from_str(home);
            s.append(LOCAL_SHARE_SUFFIX);
            s
        },
    }
}

/// The program's own directory inside the data directory.
pub fn app_dir(data_home: &str) -> (s: String)
    ensures
        s@ == data_home@ + APP_DIR_SUFFIX@,
{
    let mut s = String::from_str(data_home);
    s.append(APP_DIR_SUFFIX);
    s
}

/// The database file inside the program's directory.
pub fn database_path(app_dir: &str) -> (s: String)
    ensures
        s@ == app_dir@ + DATABASE_SUFFIX@,
{
    let mut s = String::from_str(app_dir);
    s.append(DATABASE_SUFFIX);
    s
}

} // verus!
