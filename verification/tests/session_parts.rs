use azapptoolkit_views::order::reversed;
use azapptoolkit_views::session::{
    error_text, is_consent_error, require_tenant, text_or_dash, Command, Selection, UiError,
};
use azapptoolkit_views::sorting::{arrow_text, click};
use azapptoolkit_views::window::{RowWindow, RENDER_PAGE};

fn error(code: &str) -> UiError {
    UiError { code: code.into(), message: "it broke".into(), retryable: true }
}

#[test]
fn errors_say_code_and_message() {
    assert_eq!(error_text(&error("x")), "error [x]: it broke");
    assert!(is_consent_error(&error("consent_required")));
    assert!(!is_consent_error(&error("forbidden")));
    assert_eq!(text_or_dash(&None), "—");
    assert_eq!(text_or_dash(&Some("a".into())), "a");
}

#[test]
fn a_load_needs_a_tenant() {
    assert_eq!(require_tenant(&Some("t".into())).unwrap(), "t");
    let e = require_tenant(&None).unwrap_err();
    assert_eq!((e.code.as_str(), e.message.as_str(), e.retryable), ("no_tenant", "tenant missing", false));
}

#[test]
fn a_command_runs_one_at_a_time() {
    let tenant = Some("t".to_string());
    let mut c = Command::new();
    assert!(!c.start(&None));
    assert!(c.start(&tenant));
    assert!(!c.start(&tenant));
    c.finish(Some("no".into()));
    assert_eq!(c.error.as_deref(), Some("no"));
    assert!(c.start(&tenant));
    assert_eq!(c.error, None);
    c.finish(None);
    assert!(!c.busy);
}

#[test]
fn a_selection_is_a_set() {
    let mut s = Selection::new();
    assert!(s.is_empty());
    s.toggle("a");
    s.toggle("b");
    assert_eq!(s.len(), 2);
    s.toggle("a");
    assert!(!s.contains("a"));
    assert!(s.contains("b"));
    s.clear();
    assert!(s.is_empty());
    let of = Selection::of(&vec!["x".to_string(), "y".into(), "x".into()]);
    assert_eq!(of.len(), 2);
}

#[test]
fn three_clicks_come_back() {
    for desc in [true, false] {
        let once = click(None, desc);
        assert_eq!(once, Some(desc));
        let twice = click(once, desc);
        assert_eq!(twice, Some(!desc));
        assert_eq!(click(twice, desc), None);
    }
    assert_eq!(arrow_text(Some(true)), " ↓");
    assert_eq!(arrow_text(Some(false)), " ↑");
    assert_eq!(arrow_text(None), "");
}

#[test]
fn show_more_adds_what_its_button_says() {
    let mut w = RowWindow::new();
    let rows: Vec<usize> = (0..450).collect();
    assert_eq!(w.first(&rows).len(), RENDER_PAGE);
    let more = w.more(450, "affected").unwrap();
    assert_eq!(more.label, "Showing 200 of 450 affected");
    assert_eq!(more.button, "Show 200 more");
    w.grow();
    assert_eq!(w.more(450, "affected").unwrap().button, "Show 50 more");
    assert_eq!(w.first(&rows).len(), 400);
    w.grow();
    assert!(w.more(450, "affected").is_none());
    assert_eq!(w.first(&rows), rows);
    w.reset();
    assert_eq!(w.limit, RENDER_PAGE);
}

#[test]
fn positions_turn_round() {
    assert_eq!(reversed(&vec![3, 1, 2]), vec![2, 1, 3]);
    assert!(reversed(&vec![]).is_empty());
}
