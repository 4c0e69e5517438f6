use caducity::data::category_lite::{self, CategoryLite, CategoryNameRow, CategoryRow};
use caducity::data::inventory_det_lite::{self, InventoryDetLite, InventoryDetRow};
use caducity::data::inventory_lite::{self, InventoryLite, InventoryRow, STATUS_CLOSED, STATUS_OPEN};
use caducity::data::product_lite::{self, ProductLite, ProductRow};
use caducity::dates::{DateParts, DateTimeParts};
use caducity::model::{CreateLiteExt, DataConext, QueryContext, QueryFilterContext, QueryValidExtContext};
use caducity::sql::{report, Outcome, SqlValue};

fn stamp(y: i32, mo: u32, d: u32, h: u32, mi: u32, s: u32) -> DateTimeParts {
    DateTimeParts { date: DateParts { year: y, month: mo, day: d }, hour: h, minute: mi, second: s }
}

fn text(s: &str) -> SqlValue {
    SqlValue::Text(s.to_string())
}

#[test]
fn category_constructors() {
    let c = CategoryLite::new("Dairy".to_string(), "Milk and cheese".to_string());
    assert_eq!((c.id, c.name.as_str(), c.description.as_str()), (0, "Dairy", "Milk and cheese"));
    assert!(c.date_created.is_none() && c.date_updated.is_none());
    let now = stamp(2024, 5, 6, 7, 8, 9);
    let c = CategoryLite::data_new(3, "Bakery".to_string(), "".to_string(), now, now);
    assert_eq!(c.id, 3);
    assert_eq!(c.date_created, Some(now));
    assert_eq!(c.date_updated, Some(now));
    for c in [CategoryLite::del(9), CategoryLite::upd(9)] {
        assert_eq!((c.id, c.name.as_str(), c.description.as_str()), (9, "", ""));
        assert!(c.date_created.is_none() && c.date_updated.is_none());
    }
    let e = CategoryLite::empty();
    assert_eq!((e.id, e.name.as_str()), (0, ""));
}

#[test]
fn category_statements() {
    let mut c = CategoryLite::new("Dairy".to_string(), "Milk".to_string());
    let create = c.create();
    assert_eq!(create.sql, category_lite::CREATE_SQL);
    assert!(create.params.is_empty());
    let insert = c.insert();
    assert_eq!(insert.sql, category_lite::INSERT_SQL);
    assert_eq!(insert.params, vec![text("Dairy"), text("Milk")]);
    c.id = 4;
    assert_eq!(c.delete().params, vec![SqlValue::Integer(4)]);
    let update = c.update();
    assert_eq!(update.sql, category_lite::UPDATE_SQL);
    assert_eq!(update.params, vec![text("Dairy"), text("Milk"), SqlValue::Integer(4)]);
}

#[test]
fn category_reports() {
    let c = CategoryLite::empty();
    assert_eq!(report(&c.create().messages, Outcome::Done(0)), Ok("table create 0".to_string()));
    assert_eq!(report(&c.create().messages, Outcome::Failed(1)), Err("table create fail 1".to_string()));
    assert_eq!(report(&c.create().messages, Outcome::ConnectFailed(14)), Err("connect fail 14".to_string()));
    assert_eq!(report(&c.insert().messages, Outcome::Done(1)), Ok("Insert into completed 1".to_string()));
    assert_eq!(report(&c.insert().messages, Outcome::Failed(2067)), Err("insert fail 2067".to_string()));
    assert_eq!(report(&c.delete().messages, Outcome::Done(1)), Ok("Insert into completed 1".to_string()));
    assert_eq!(report(&c.delete().messages, Outcome::Failed(787)), Err("delete fail 787".to_string()));
    assert_eq!(report(&c.update().messages, Outcome::Done(2)), Ok("Update into completed 2".to_string()));
    assert_eq!(report(&c.update().messages, Outcome::Failed(5)), Err("update fail 5".to_string()));
    assert_eq!(report(&c.update().messages, Outcome::ConnectFailed(-3)), Err("connect fail -3".to_string()));
}

#[test]
fn other_tables_report_a_capital_connect_failure_on_create() {
    let p = ProductLite::empty();
    assert_eq!(report(&p.create().messages, Outcome::ConnectFailed(14)), Err("Connect fail 14".to_string()));
    assert_eq!(report(&p.update().messages, Outcome::Done(1)), Ok("Insert into completed 1".to_string()));
    let i = InventoryLite::empty();
    assert_eq!(report(&i.create().messages, Outcome::ConnectFailed(14)), Err("Connect fail 14".to_string()));
    assert_eq!(report(&i.update().messages, Outcome::Failed(9)), Err("update fail 9".to_string()));
    let d = InventoryDetLite::empty();
    assert_eq!(report(&d.create().messages, Outcome::Done(0)), Ok("table create 0".to_string()));
    assert_eq!(report(&d.insert().messages, Outcome::ConnectFailed(1)), Err("connect fail 1".to_string()));
}

#[test]
fn category_rows_become_categories() {
    let c = CategoryLite::empty();
    let rows = vec![
        CategoryRow {
            id: 2,
            name: "Dairy".to_string(),
            description: "Milk".to_string(),
            date_created: Some("2024-01-02 03:04:05".to_string()),
            date_updated: None,
        },
        CategoryRow { id: 1, name: "Bread".to_string(), description: "".to_string(), date_created: None, date_updated: None },
    ];
    let all = c.get_all(&rows).unwrap();
    assert_eq!(all.len(), 2);
    assert_eq!((all[0].id, all[0].name.as_str()), (2, "Dairy"));
    assert_eq!(all[0].date_created, Some(stamp(2024, 1, 2, 3, 4, 5)));
    assert_eq!(all[0].date_updated, None);
    assert_eq!((all[1].id, all[1].description.as_str()), (1, ""));
    assert_eq!(c.get_all_query().sql, category_lite::SELECT_ALL_SQL);
}

#[test]
fn unreadable_date_refuses_the_list() {
    let c = CategoryLite::empty();
    let rows = vec![CategoryRow {
        id: 2,
        name: "Dairy".to_string(),
        description: "Milk".to_string(),
        date_created: Some("not a date".to_string()),
        date_updated: None,
    }];
    assert!(c.get_all(&rows).is_none());
    assert_eq!(c.get_all(&vec![]).map(|v| v.len()), Some(0));
}

#[test]
fn category_names_for_choosing() {
    let c = CategoryLite::empty();
    let rows = vec![CategoryNameRow { id: 5, name: "Zest".to_string() }, CategoryNameRow { id: 3, name: "Apple".to_string() }];
    let names = c.get_filter(&rows).unwrap();
    assert_eq!(names.iter().map(|c| (c.id, c.name.clone(), c.description.clone())).collect::<Vec<_>>(),
        vec![(5, "Zest".to_string(), String::new()), (3, "Apple".to_string(), String::new())]);
    assert_eq!(c.get_filter_query().sql, category_lite::SELECT_NAMES_SQL);
}

#[test]
fn product_records_and_statements() {
    let p = ProductLite::new("7501".to_string(), "Milk".to_string(), "1L".to_string(), 3);
    assert_eq!(p.insert().params, vec![text("7501"), text("Milk"), text("1L"), SqlValue::Integer(3)]);
    assert_eq!(p.update().params, vec![text("Milk"), text("1L"), SqlValue::Integer(3), text("7501")]);
    assert_eq!(p.delete().params, vec![text("7501")]);
    assert_eq!(p.update().sql, product_lite::UPDATE_SQL);
    let d = ProductLite::del("7501".to_string());
    assert_eq!((d.barcode.as_str(), d.name.as_str(), d.categoryid), ("7501", "", 0));
    let u = ProductLite::upd("x".to_string());
    assert_eq!((u.barcode.as_str(), u.description.as_str()), ("x", ""));
    let rows = vec![ProductRow {
        barcode: "7501".to_string(),
        name: "Milk".to_string(),
        description: "1L".to_string(),
        categoryid: 3,
        date_created: Some("2024-06-01 08:00:00".to_string()),
        date_updated: Some("2024-06-02 09:30:00".to_string()),
    }];
    let all = p.get_all(&rows).unwrap();
    assert_eq!(all[0].date_updated, Some(stamp(2024, 6, 2, 9, 30, 0)));
    assert_eq!(all[0].categoryid, 3);
}

#[test]
fn inventory_records_and_statements() {
    assert_eq!(InventoryLite::new().statusid, STATUS_OPEN);
    let closing = InventoryLite::upd(8);
    assert_eq!((closing.id, closing.statusid), (8, STATUS_CLOSED));
    assert_eq!(closing.update().params, vec![SqlValue::Integer(0), SqlValue::Integer(8)]);
    assert_eq!(InventoryLite::new().insert().params, vec![SqlValue::Integer(1)]);
    assert_eq!(InventoryLite::del(8).delete().params, vec![SqlValue::Integer(8)]);
    assert_eq!(InventoryLite::del(8).delete().sql, inventory_lite::DELETE_SQL);
    let rows = vec![InventoryRow { id: 2, statusid: 1, date_created: Some("2024-06-01 08:00:00".to_string()), date_updated: None }];
    let all = InventoryLite::empty().get_all(&rows).unwrap();
    assert_eq!(all, vec![InventoryLite { id: 2, statusid: 1, date_created: Some(stamp(2024, 6, 1, 8, 0, 0)), date_updated: None }]);
}

#[test]
fn open_inventory_question() {
    let i = InventoryLite::empty();
    assert_eq!(i.get_filter_query().sql, inventory_lite::SELECT_OPEN_SQL);
    assert_eq!(i.get_filter(&vec![1]), Some(1));
    assert_eq!(i.get_filter(&vec![]), None);
    assert_eq!(i.get_filter(&vec![1, 1]), None);
}

#[test]
fn inventory_line_records_and_statements() {
    let date = DateParts { year: 2025, month: 1, day: 31 };
    let l = InventoryDetLite::new(4, "7501".to_string(), 12, 2, 1, Some(date));
    assert_eq!((l.id_ivt_det, l.inv_id, l.stock, l.status_id, l.box_id), (0, 4, 12, 2, 1));
    assert_eq!(
        l.insert().params,
        vec![SqlValue::Integer(4), text("7501"), SqlValue::Integer(1), SqlValue::Integer(2), SqlValue::Integer(12), text("2025-01-31")]
    );
    let mut u = l.clone();
    u.id_ivt_det = 10;
    u.date_expiration = None;
    assert_eq!(
        u.update().params,
        vec![text("7501"), SqlValue::Integer(1), SqlValue::Integer(2), SqlValue::Integer(12), SqlValue::Null, SqlValue::Integer(10)]
    );
    assert_eq!(InventoryDetLite::del(10).delete().params, vec![SqlValue::Integer(10)]);
    let q = { let mut e = InventoryDetLite::empty(); e.inv_id = 4; e.get_filter_query() };
    assert_eq!(q.sql, inventory_det_lite::SELECT_OF_INVENTORY_SQL);
    assert_eq!(q.params, vec![SqlValue::Integer(4)]);
    let row = InventoryDetRow {
        id_ivt_det: 10,
        inv_id: 4,
        barcode: "7501".to_string(),
        stock: 12,
        date_expiration: Some("2025-01-31".to_string()),
        status_id: 2,
        box_id: 1,
        date_created: Some("2025-01-01 00:00:00".to_string()),
        date_updated: None,
    };
    let lines = InventoryDetLite::empty().get_filter(&vec![row]).unwrap();
    assert_eq!(lines[0].date_expiration, Some(date));
    assert_eq!((lines[0].id_ivt_det, lines[0].stock), (10, 12));
    let bad = InventoryDetRow {
        id_ivt_det: 1, inv_id: 1, barcode: String::new(), stock: 0, date_expiration: Some("2025-02-30".to_string()),
        status_id: 0, box_id: 0, date_created: None, date_updated: None,
    };
    assert!(InventoryDetLite::empty().get_all(&vec![bad]).is_none());
}

#[test]
fn rows_with_read_dates_become_records() {
    let created = stamp(2024, 1, 2, 3, 4, 5);
    let row = CategoryRow { id: 3, name: "Fruit".to_string(), description: "Fresh".to_string(), date_created: None, date_updated: None };
    let c = row.to_category(Some(created), None);
    assert_eq!((c.id, c.name.as_str(), c.description.as_str(), c.date_created, c.date_updated), (3, "Fruit", "Fresh", Some(created), None));
    let row = ProductRow { barcode: "9".to_string(), name: "Pear".to_string(), description: String::new(), categoryid: 3, date_created: None, date_updated: None };
    let p = row.to_product(None, Some(created));
    assert_eq!((p.barcode.as_str(), p.categoryid, p.date_updated), ("9", 3, Some(created)));
    let row = InventoryRow { id: 4, statusid: 0, date_created: None, date_updated: None };
    assert_eq!(row.to_inventory(Some(created), None), InventoryLite { id: 4, statusid: 0, date_created: Some(created), date_updated: None });
    let row = InventoryDetRow {
        id_ivt_det: 1, inv_id: 4, barcode: "9".to_string(), stock: 5, date_expiration: None,
        status_id: 1, box_id: 2, date_created: None, date_updated: None,
    };
    let expiry = DateParts { year: 2026, month: 7, day: 1 };
    let l = row.to_line(Some(expiry), None, Some(created));
    assert_eq!((l.id_ivt_det, l.inv_id, l.stock, l.status_id, l.box_id, l.date_expiration, l.date_updated), (1, 4, 5, 1, 2, Some(expiry), Some(created)));
}
