use caducity::data::category_lite::CategoryLite;
use caducity::data::inventory_det_lite::{InventoryDetLite, SELECT_OF_INVENTORY_SQL};
use caducity::data::inventory_lite::{InventoryLite, STATUS_CLOSED, STATUS_OPEN};
use caducity::dates::{DateParts, DateTimeParts};
use caducity::model::CreateLiteExt;
use caducity::sql::SqlValue;
use caducity::view::category_pg::{edit_form, save_body, save_category, CategorySave};
use caducity::view::dialog_alert::{is_accept, CREATE_BODY, UPDATE_BODY};
use caducity::view::home_pg::{
    add_inventory, close_inventory, close_report, show_detail, status_icon, table_commands, AddInventory, CloseStep,
};
use caducity::view::inventory_pg::{combo_index, detail_title, edit_line_form, lines_query, save_line, LineSave};
use caducity::view::navigation::{app_dir, data_home, database_path, menu_entries, page_of, Page};
use caducity::view::product_pg::{find_category_index, save_follow_up, save_product, ProductSave};

fn now() -> DateTimeParts {
    DateTimeParts { date: DateParts { year: 2024, month: 5, day: 6 }, hour: 7, minute: 8, second: 9 }
}

#[test]
fn category_save_with_empty_key_adds() {
    match save_category("", "Dairy".to_string(), "Milk".to_string(), now()) {
        CategorySave::Insert(c) => {
            assert_eq!((c.id, c.name.as_str(), c.description.as_str()), (0, "Dairy", "Milk"));
            assert!(c.date_created.is_none());
        }
        _ => panic!("expected an insert"),
    }
}

#[test]
fn category_save_with_key_updates() {
    let s = save_category("12", "Dairy".to_string(), "Milk".to_string(), now());
    assert_eq!(save_body(&s), UPDATE_BODY);
    match s {
        CategorySave::Update(c) => {
            assert_eq!(c.id, 12);
            assert_eq!(c.date_created, Some(now()));
            assert_eq!(c.date_updated, Some(now()));
        }
        _ => panic!("expected an update"),
    }
    assert_eq!(save_body(&save_category("", String::new(), String::new(), now())), CREATE_BODY);
}

#[test]
fn category_save_with_bad_key_does_nothing() {
    assert!(matches!(save_category("twelve", "a".to_string(), "b".to_string(), now()), CategorySave::Ignore));
    assert!(matches!(save_category("-1", "a".to_string(), "b".to_string(), now()), CategorySave::Ignore));
}

#[test]
fn category_edit_then_save_updates_the_same_category() {
    for id in [0u32, 7, 4096, u32::MAX] {
        let c = CategoryLite::data_new(id, "Dairy".to_string(), "Milk".to_string(), now(), now());
        let f = edit_form(&c);
        assert_eq!(f.id, id.to_string());
        match save_category(&f.id, f.name, f.description, now()) {
            CategorySave::Update(u) => assert_eq!((u.id, u.name.as_str()), (id, "Dairy")),
            _ => panic!("expected an update"),
        }
    }
}

#[test]
fn detail_opens_only_open_inventories() {
    let open = show_detail(3, STATUS_OPEN);
    assert_eq!((open.body, open.open), ("", Some(3)));
    let closed = show_detail(3, STATUS_CLOSED);
    assert_eq!((closed.body, closed.open), ("status closed dont change this", None));
    let other = show_detail(3, 7);
    assert_eq!((other.body, other.open), ("this option dont found", None));
}

#[test]
fn add_inventory_only_when_none_is_open() {
    match add_inventory(Some(1)) {
        AddInventory::AlreadyOpen(msg) => assert_eq!(msg, "open inventory first closed 1"),
        _ => panic!("expected a refusal"),
    }
    match add_inventory(None) {
        AddInventory::Create(rec) => assert_eq!(rec, InventoryLite::new()),
        _ => panic!("expected a new inventory"),
    }
}

#[test]
fn at_most_one_open_inventory_on_concrete_table() {
    let statuses = vec![STATUS_CLOSED, STATUS_OPEN];
    let open_rows: Vec<u8> = if statuses.contains(&STATUS_OPEN) { vec![1] } else { vec![] };
    let answer = caducity::model::QueryValidExtContext::get_filter(&InventoryLite::empty(), &open_rows);
    assert!(matches!(add_inventory(answer), AddInventory::AlreadyOpen(_)));
    let closed_all = vec![STATUS_CLOSED, STATUS_CLOSED];
    let answer = caducity::model::QueryValidExtContext::get_filter(&InventoryLite::empty(), &vec![]);
    match add_inventory(answer) {
        AddInventory::Create(rec) => {
            let mut after = closed_all.clone();
            after.push(rec.statusid);
            assert_eq!(after.iter().filter(|s| **s == STATUS_OPEN).count(), 1);
        }
        _ => panic!("expected a new inventory"),
    }
}

#[test]
fn close_inventory_steps() {
    match close_inventory(5, STATUS_OPEN) {
        CloseStep::Update(rec) => assert_eq!((rec.id, rec.statusid), (5, STATUS_CLOSED)),
        _ => panic!("expected an update"),
    }
    match close_inventory(5, STATUS_CLOSED) {
        CloseStep::Notice(t) => assert_eq!(t, "status 0 is closed"),
        _ => panic!("expected a notice"),
    }
    match close_inventory(5, 9) {
        CloseStep::Notice(t) => assert_eq!(t, "status 9 no exist info."),
        _ => panic!("expected a notice"),
    }
    assert_eq!(close_report(&Ok("Insert into completed 1".to_string())), ("update Insert into completed 1".to_string(), true));
    assert_eq!(close_report(&Err("update fail 5".to_string())), ("update fail".to_string(), false));
}

#[test]
fn status_icons() {
    assert_eq!(status_icon(STATUS_CLOSED), ("changes-prevent-symbolic", Some("Closed")));
    assert_eq!(status_icon(STATUS_OPEN), ("changes-allow-symbolic", Some("Open")));
    assert_eq!(status_icon(4), ("changes-allow-symbolic", None));
}

#[test]
fn startup_creates_four_tables_in_order() {
    let cmds = table_commands();
    assert_eq!(cmds.len(), 4);
    assert!(cmds[0].sql.contains("Category"));
    assert!(cmds[1].sql.contains("Product"));
    assert!(cmds[2].sql.contains("Inventory ("));
    assert!(cmds[3].sql.contains("Inventory_detail"));
    assert!(cmds.iter().all(|c| c.params.is_empty()));
}

#[test]
fn product_save_decisions() {
    assert!(matches!(save_product(String::new(), "n".to_string(), "d".to_string(), 1, false), ProductSave::Ignore));
    match save_product("7501".to_string(), "Milk".to_string(), "1L".to_string(), 3, false) {
        ProductSave::Insert(p) => assert_eq!((p.barcode.as_str(), p.categoryid), ("7501", 3)),
        _ => panic!("expected an insert"),
    }
    match save_product("7501".to_string(), "Milk".to_string(), "1L".to_string(), 3, true) {
        ProductSave::Update(p) => assert_eq!(p.name, "Milk"),
        _ => panic!("expected an update"),
    }
    assert_eq!(caducity::view::product_pg::save_body(true), UPDATE_BODY);
    assert_eq!(caducity::view::product_pg::save_body(false), CREATE_BODY);
}

#[test]
fn product_save_follow_up() {
    let f = save_follow_up(true, &Ok("Insert into completed 1".to_string()));
    assert!(f.hide_form && f.clear_form);
    assert_eq!(f.log, "DB messenger : Insert into completed 1");
    let f = save_follow_up(false, &Ok("x".to_string()));
    assert!(!f.hide_form && f.clear_form);
    let f = save_follow_up(true, &Err("insert fail 19".to_string()));
    assert!(!f.hide_form && !f.clear_form);
    assert_eq!(f.log, "DB messenger Fail: insert fail 19");
}

#[test]
fn category_choice_position() {
    assert_eq!(find_category_index(&vec![5, 3, 9, 3], 3), Some(1));
    assert_eq!(find_category_index(&vec![5, 3, 9], 4), None);
    assert_eq!(find_category_index(&vec![], 4), None);
}

#[test]
fn combo_positions() {
    assert_eq!(combo_index(3, 1), Some(1));
    assert_eq!(combo_index(3, 3), None);
    assert_eq!(combo_index(0, 0), None);
    assert_eq!(combo_index(300, 4), Some(4));
    assert_eq!(combo_index(300, 255), Some(255));
}

#[test]
fn line_save_adds_or_updates() {
    match save_line("", "4", "7501".to_string(), "12", 1, 2, 2025, 1, 31) {
        LineSave::Insert(l) => {
            assert_eq!((l.id_ivt_det, l.inv_id, l.stock, l.box_id, l.status_id), (0, 4, 12, 1, 2));
            assert_eq!(l.date_expiration, Some(DateParts { year: 2025, month: 1, day: 31 }));
        }
        _ => panic!("expected an insert"),
    }
    match save_line("10", "x", "7501".to_string(), "", 257, u32::MAX, 2025, 2, 30) {
        LineSave::Update(l) => {
            assert_eq!((l.id_ivt_det, l.inv_id, l.stock, l.box_id, l.status_id), (10, 0, 0, 1, 255));
            assert_eq!(l.date_expiration, None);
        }
        _ => panic!("expected an update"),
    }
}

#[test]
fn line_edit_then_save_keeps_the_line() {
    let line = {
        let mut l = InventoryDetLite::new(4, "7501".to_string(), 12, 2, 1, Some(DateParts { year: 2025, month: 1, day: 31 }));
        l.id_ivt_det = 10;
        l
    };
    let f = edit_line_form(&line, 3, 4);
    assert_eq!((f.id.as_str(), f.inv_id.as_str(), f.stock.as_str()), ("10", "4", "12"));
    assert_eq!((f.box_index, f.status_index), (Some(1), Some(2)));
    let d = f.date.unwrap();
    match save_line(&f.id, &f.inv_id, f.barcode, &f.stock, f.box_index.unwrap(), f.status_index.unwrap(), d.year, d.month as i32, d.day as i32) {
        LineSave::Update(l) => {
            assert_eq!((l.id_ivt_det, l.inv_id, l.barcode.as_str(), l.stock, l.box_id, l.status_id), (10, 4, "7501", 12, 1, 2));
            assert_eq!(l.date_expiration, line.date_expiration);
        }
        _ => panic!("expected an update"),
    }
}

#[test]
fn line_page_title_and_query() {
    assert_eq!(detail_title(42), "Datail Inventory # 42");
    let q = lines_query(42);
    assert_eq!(q.sql, SELECT_OF_INVENTORY_SQL);
    assert_eq!(q.params, vec![SqlValue::Integer(42)]);
}

#[test]
fn dialog_responses() {
    assert!(is_accept("accept"));
    assert!(!is_accept("cancel"));
    assert!(!is_accept(""));
}

#[test]
fn navigation() {
    assert_eq!(menu_entries(), vec!["Home", "Categories", "Products"]);
    assert_eq!(page_of("Home"), Some(Page::Home));
    assert_eq!(page_of("Categories"), Some(Page::Categories));
    assert_eq!(page_of("Products"), Some(Page::Products));
    assert_eq!(page_of("Inventory"), None);
}

#[test]
fn database_location() {
    assert_eq!(data_home(Some("/data"), "/home/ana"), "/data");
    assert_eq!(data_home(None, "/home/ana"), "/home/ana/.local/share");
    let dir = app_dir("/home/ana/.local/share");
    assert_eq!(dir, "/home/ana/.local/share/caducity-sys");
    assert_eq!(database_path(&dir), "/home/ana/.local/share/caducity-sys/caducity.sqlite3");
}
