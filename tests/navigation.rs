use scrambler::menu::{default_menu, default_top_menu};
use scrambler::meta::Script;
use scrambler::navigation::{self, CellContent, InputType, Link, Listing, Permission, PermissionSet};
use scrambler::text::{contains, ends_with, same_text};

#[test]
fn new_link_defaults() {
    let l = Link::new("Home", "/");
    assert_eq!(l.visual, "Home");
    assert_eq!(l.url, "/");
    assert!(!l.active);
    assert_eq!(l.icon, "");
    assert_eq!(l.clearance, Permission::Browse);
    assert!(l.children.is_none());
}

#[test]
fn children_are_appended() {
    let mut l = Link::new("Parent", "");
    l.add_child(Link::new("A", "/a"));
    l.add_child(Link::new("B", "/b"));
    let ch = l.children.unwrap();
    assert_eq!(ch.len(), 2);
    assert_eq!(ch[0].visual, "A");
    assert_eq!(ch[1].url, "/b");
}

#[test]
fn permission_set_lists_granted_in_order() {
    let p = PermissionSet { browse: true, read: false, edit: true, add: false, delete: true };
    assert_eq!(p.as_vec(), vec![Permission::Browse, Permission::Edit, Permission::Delete]);
    let all = PermissionSet { browse: true, read: true, edit: true, add: true, delete: true };
    assert_eq!(all.as_vec().len(), 5);
    assert!(PermissionSet::deny().as_vec().is_empty());
}

#[test]
fn menus() {
    let m = navigation::default_menu();
    assert_eq!(m.len(), 2);
    assert_eq!(m[1].url, "/user/");
    let top = default_top_menu();
    assert_eq!(top.len(), 3);
    assert_eq!(top[2].icon, "fa-hourglass-start");
    let side = default_menu();
    assert_eq!(side.len(), 1);
    let ch = side[0].children.as_ref().unwrap();
    assert_eq!(ch[1].url, "/project/add");
}

#[test]
fn listings() {
    let l = Listing::with_id_date("Project", 7, "2018-10-08");
    assert_eq!(l.id, 7);
    assert_eq!(l.date, "2018-10-08");
    assert!(l.comment.is_none());
    let m = Listing::with_id("Other", -3);
    assert_eq!(m.id, -3);
    assert_eq!(m.date, "");
    let n = Listing::new("Random");
    assert_eq!(n.name, "Random");
    assert_eq!(n.edit.url, "");
}

#[test]
fn cell_content() {
    let c = CellContent::new("x".to_string());
    assert_eq!(c.title, "x");
    assert_eq!(c.detail, (String::new(), String::new(), String::new()));
}

#[test]
fn input_type_names() {
    assert_eq!(InputType::TextArea.name(), "TextArea");
    assert_eq!(InputType::Hidden.name(), "Hidden");
}

#[test]
fn script_tags() {
    assert_eq!(
        Script::new("/static/theme.js").as_html(),
        "<script src=\"/static/theme.js\" charset=\"utf-8\"></script>"
    );
    assert_eq!(
        Script::with_external("https://x/j.js", "sha-1").as_html(),
        "<script src=\"https://x/j.js\" integrity=\"sha-1\" crossorigin=\"anonymous\" charset=\"utf-8\"></script>"
    );
    let s = Script {
        url: "u".to_string(),
        integrity: Some("i".to_string()),
        crossorigin: None,
        charset: "c".to_string(),
    };
    assert_eq!(s.as_html(), "<script src=\"u\" integrity=\"i\" charset=\"c\"></script>");
}

#[test]
fn text_helpers() {
    assert!(same_text("abc", "abc"));
    assert!(!same_text("abc", "abd"));
    assert!(!same_text("ab", "abc"));
    assert!(ends_with("team_id", "_id"));
    assert!(!ends_with("id", "_id"));
    assert!(contains("quantity_type", "type"));
    assert!(contains("x", ""));
    assert!(!contains("ty", "type"));
}
