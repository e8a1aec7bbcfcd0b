use wiw_boerse::db::{DbValue, DeleteError, ValidationError};
use wiw_boerse::entry::Type;
use wiw_boerse::notice::{
    add_notice, decode_notice_row, del_notice, format_notices, select_notices_statement,
    NoticePositions,
};

fn positions(index: bool, create_offer: bool, create_request: bool) -> NoticePositions {
    NoticePositions { index, create_offer, create_request }
}

#[test]
fn serialize_then_parse_restores_the_set() {
    let p = positions(true, true, false);
    let s = p.mysql_string();
    assert_eq!(s, "index,create_offer");
    let q = NoticePositions::from(s.as_str());
    assert!(q.index);
    assert!(q.create_offer);
    assert!(!q.create_request);
    assert_eq!(q, p);
}

#[test]
fn serialized_forms_are_comma_joined_in_fixed_order() {
    assert_eq!(positions(false, false, false).mysql_string(), "");
    assert_eq!(positions(true, false, false).mysql_string(), "index");
    assert_eq!(positions(false, true, false).mysql_string(), "create_offer");
    assert_eq!(positions(false, false, true).mysql_string(), "create_request");
    assert_eq!(positions(true, false, true).mysql_string(), "index,create_request");
    assert_eq!(positions(false, true, true).mysql_string(), "create_offer,create_request");
    assert_eq!(
        positions(true, true, true).mysql_string(),
        "index,create_offer,create_request"
    );
}

#[test]
fn serialize_then_parse_restores_every_set() {
    for &index in &[false, true] {
        for &create_offer in &[false, true] {
            for &create_request in &[false, true] {
                let p = positions(index, create_offer, create_request);
                let q = NoticePositions::from(p.mysql_string().as_str());
                assert_eq!(q, p);
            }
        }
    }
}

#[test]
fn parsing_is_substring_containment() {
    let p = NoticePositions::from("xindexy");
    assert!(p.index);
    assert!(!p.create_offer);
    assert!(!p.create_request);
    let q = NoticePositions::from("create_request");
    assert!(!q.index);
    assert!(!q.create_offer);
    assert!(q.create_request);
}

#[test]
fn contains_maps_scopes_to_flags() {
    let p = positions(true, false, true);
    assert!(p.contains(None));
    assert!(!p.contains(Some(Type::Offer)));
    assert!(p.contains(Some(Type::Request)));
    assert!(p.any());
    assert!(!positions(false, false, false).any());
}

#[test]
fn add_notice_requires_text_first() {
    let r = add_notice("", &positions(true, true, true));
    assert_eq!(r.unwrap_err(), ValidationError::MissingText);
    let r2 = add_notice("", &positions(false, false, false));
    assert_eq!(r2.unwrap_err(), ValidationError::MissingText);
}

#[test]
fn add_notice_requires_a_position_second() {
    let e = add_notice("Hallo", &positions(false, false, false)).unwrap_err();
    assert_eq!(e, ValidationError::MissingPositions);
    assert_eq!(
        e.message(),
        "Bitte geben Sie mindestens eine Position an, wo die Notiz angezeigt werden soll."
    );
}

#[test]
fn add_notice_builds_the_storing_command() {
    let c = add_notice("Hallo Welt", &positions(true, false, false)).unwrap();
    assert_eq!(
        c.statement,
        "INSERT INTO notices (position, text) VALUES (\"index\", \"Hallo Welt\")"
    );
    assert_eq!(c.confirmation, "Die Notiz wurde veröffentlicht.");
}

#[test]
fn add_notice_escapes_the_text() {
    let c = add_notice("a'b", &positions(false, true, false)).unwrap();
    assert_eq!(
        c.statement,
        "INSERT INTO notices (position, text) VALUES (\"create_offer\", \"a\\'b\")"
    );
}

#[test]
fn del_notice_names_a_non_numeric_id() {
    let r = del_notice(Some("abc"));
    let e = r.unwrap_err();
    assert!(matches!(&e, DeleteError::BadId(s) if s == "abc"));
    assert_eq!(e.status(), 400);
    assert_eq!(e.message(None), "Die Notiznummer \"abc\" ist keine Nummer.");
}

#[test]
fn del_notice_without_id_is_an_internal_error() {
    let e = del_notice(None).unwrap_err();
    assert!(matches!(e, DeleteError::MissingId));
    assert_eq!(e.status(), 500);
    assert_eq!(e.message(None), "Fehler beim Lesen der Notiznummer.");
}

#[test]
fn del_notice_builds_the_deleting_command() {
    let c = del_notice(Some("7")).unwrap();
    assert_eq!(c.statement, "DELETE FROM notices WHERE id=7");
    assert_eq!(c.confirmation, "Die Notiz wurde gelöscht.");
}

#[test]
fn del_notice_accepts_any_well_formed_id() {
    let c = del_notice(Some("999999")).unwrap();
    assert_eq!(c.statement, "DELETE FROM notices WHERE id=999999");
    assert_eq!(c.confirmation, "Die Notiz wurde gelöscht.");
}

fn notice_row(id: i32, position: &str, text: &str) -> Option<Vec<DbValue>> {
    Some(vec![
        DbValue::Int(id),
        DbValue::Text(position.to_string()),
        DbValue::Text(text.to_string()),
    ])
}

#[test]
fn decode_notice_row_reads_the_three_columns() {
    let row = vec![
        DbValue::Int(3),
        DbValue::Text("index".to_string()),
        DbValue::Text("Hi".to_string()),
    ];
    let n = decode_notice_row(&row).unwrap();
    assert_eq!(n.id, 3);
    assert!(n.positions.index);
    assert_eq!(n.text, "Hi");
    let bad = vec![DbValue::Null, DbValue::Null, DbValue::Null];
    assert!(decode_notice_row(&bad).is_none());
}

#[test]
fn format_notices_filters_by_scope() {
    let rows = vec![
        notice_row(1, "index", "Auf der Hauptseite"),
        notice_row(2, "create_offer", "Im Angebotsformular"),
    ];
    let index_page = format_notices(None, &rows, false);
    assert!(index_page.contains("Auf der Hauptseite"));
    assert!(!index_page.contains("Im Angebotsformular"));
    let offer_form = format_notices(Some(Type::Offer), &rows, false);
    assert!(!offer_form.contains("Auf der Hauptseite"));
    assert!(offer_form.contains("Im Angebotsformular"));
    let request_form = format_notices(Some(Type::Request), &rows, false);
    assert_eq!(request_form, "");
}

#[test]
fn format_notices_shows_delete_links_to_admins_only() {
    let rows = vec![notice_row(5, "index", "Hi")];
    let admin_view = format_notices(None, &rows, true);
    assert_eq!(
        admin_view,
        "<div class=\"alert alert-info\"><div style=\"float: right;\"><a href=\"/notiz/5/loeschen\" \
         class=\"btn btn-danger\"><i class=\"fa fa-trash-o\"></i></a></div>Hi</div>"
    );
    let user_view = format_notices(None, &rows, false);
    assert_eq!(user_view, "<div class=\"alert alert-info\">Hi</div>");
}

#[test]
fn format_notices_keeps_malformed_rows_visible() {
    let rows = vec![None, notice_row(1, "index", "Ok")];
    let out = format_notices(None, &rows, false);
    assert_eq!(
        out,
        "<div class=\"alert alert-danger\"><strong>Fehlerhafte Nachricht.</strong></div>\
         <div class=\"alert alert-info\">Ok</div>"
    );
    let short_row = vec![Some(vec![DbValue::Int(1)])];
    let out2 = format_notices(None, &short_row, false);
    assert_eq!(
        out2,
        "<div class=\"alert alert-danger\"><strong>Fehlerhafte Nachricht.</strong></div>"
    );
}

#[test]
fn notices_are_listed_with_one_statement() {
    assert_eq!(select_notices_statement(), "SELECT * FROM notices");
}
