use titanium_dom::{
    click, first_match, is_enabled, is_hidden, is_suppressed, is_text_input, is_text_input_type,
    is_visible, match_pattern, mouse_down, mouse_event, mouse_event_init, mouse_out, mouse_over,
    ComputedStyle, ElementInfo, ElementKind, ElementSeq, Pattern, Rect, StyledElement, Viewport,
};

fn el(tag: &str, kind: ElementKind, disabled: bool) -> ElementInfo {
    ElementInfo { tag_name: Some(tag.to_string()), kind, disabled, input_type: None }
}

fn input(input_type: Option<&str>) -> ElementInfo {
    ElementInfo {
        tag_name: Some("INPUT".to_string()),
        kind: ElementKind::Input,
        disabled: false,
        input_type: input_type.map(|t| t.to_string()),
    }
}

fn style(display: &str, visibility: &str, opacity: &str) -> Option<ComputedStyle> {
    Some(ComputedStyle {
        display: Some(display.to_string()),
        visibility: Some(visibility.to_string()),
        opacity: Some(opacity.to_string()),
    })
}

fn styled(tag: &str, st: Option<ComputedStyle>) -> StyledElement {
    StyledElement { tag_name: Some(tag.to_string()), style: st }
}

#[test]
fn enabled_stops_at_body() {
    let chain = vec![
        el("BUTTON", ElementKind::Button, false),
        el("DIV", ElementKind::Other, false),
        el("BODY", ElementKind::Other, false),
        el("FIELDSET", ElementKind::FieldSet, true),
    ];
    assert!(is_enabled(&chain));
}

#[test]
fn disabled_fieldset_disables_control() {
    let chain = vec![
        el("INPUT", ElementKind::Input, false),
        el("FIELDSET", ElementKind::FieldSet, true),
        el("BODY", ElementKind::Other, false),
    ];
    assert!(!is_enabled(&chain));
}

#[test]
fn disabled_control_itself() {
    let chain = vec![el("SELECT", ElementKind::Select, true), el("BODY", ElementKind::Other, false)];
    assert!(!is_enabled(&chain));
    let chain = vec![el("TEXTAREA", ElementKind::TextArea, true)];
    assert!(!is_enabled(&chain));
}

#[test]
fn control_without_body_and_without_disabling_ancestor() {
    let chain = vec![el("BUTTON", ElementKind::Button, false), el("DIV", ElementKind::Other, true)];
    assert!(is_enabled(&chain));
}

#[test]
fn non_form_control_always_enabled() {
    let chain = vec![
        el("DIV", ElementKind::Other, true),
        el("FIELDSET", ElementKind::FieldSet, true),
    ];
    assert!(is_enabled(&chain));
    let chain = vec![el("FIELDSET", ElementKind::FieldSet, true)];
    assert!(is_enabled(&chain));
    assert!(is_enabled(&Vec::new()));
}

#[test]
fn hidden_and_visible_are_independent() {
    let chain = vec![
        styled("DIV", style("block", "visible", "1")),
        styled("BODY", style("block", "visible", "1")),
    ];
    assert!(!is_hidden(true, &chain));
    let view = Viewport { inner_width: 2000, inner_height: 2000 };
    let rect = Rect { left: -100, right: -90, top: -100, bottom: -90 };
    assert!(!is_visible(Some(view), Some(rect)));
}

#[test]
fn hidden_without_view() {
    let chain = vec![styled("BODY", style("block", "visible", "1"))];
    assert!(is_hidden(false, &chain));
}

#[test]
fn hidden_by_each_style() {
    for st in [style("none", "visible", "1"), style("block", "hidden", "1"), style("block", "visible", "0")] {
        let chain = vec![styled("SPAN", style("inline", "visible", "1")), styled("DIV", st), styled("BODY", None)];
        assert!(is_hidden(true, &chain));
    }
}

#[test]
fn hidden_when_style_missing_or_walk_ends() {
    assert!(is_hidden(true, &vec![styled("DIV", None), styled("BODY", None)]));
    assert!(is_hidden(true, &vec![styled("DIV", style("block", "visible", "1"))]));
    assert!(is_hidden(true, &Vec::new()));
}

#[test]
fn opacity_compared_as_string() {
    let st = ComputedStyle { display: None, visibility: None, opacity: Some("0.0".to_string()) };
    assert!(!is_suppressed(&st));
    let st = ComputedStyle { display: None, visibility: None, opacity: Some("0".to_string()) };
    assert!(is_suppressed(&st));
}

#[test]
fn visible_in_viewport() {
    let view = Viewport { inner_width: 800, inner_height: 600 };
    assert!(is_visible(Some(view), Some(Rect { left: 10, right: 20, top: 10, bottom: 20 })));
    assert!(is_visible(Some(view), Some(Rect { left: -5, right: 5, top: -5, bottom: 5 })));
    assert!(!is_visible(Some(view), Some(Rect { left: 800, right: 810, top: 10, bottom: 20 })));
    assert!(!is_visible(Some(view), Some(Rect { left: 10, right: 20, top: 600, bottom: 610 })));
    assert!(!is_visible(None, Some(Rect { left: 10, right: 20, top: 10, bottom: 20 })));
    assert!(!is_visible(Some(view), None));
}

#[test]
fn text_input_types() {
    for t in ["button", "checkbox", "color", "file", "hidden", "image", "radio", "reset", "submit"] {
        assert!(!is_text_input_type(t));
        assert!(!is_text_input(&input(Some(t))));
    }
    for t in ["text", "number", "tel", "search", "email", "future-type", ""] {
        assert!(is_text_input_type(t));
        assert!(is_text_input(&input(Some(t))));
    }
    assert!(is_text_input(&input(None)));
    let mut not_input = el("DIV", ElementKind::Other, false);
    not_input.input_type = Some("checkbox".to_string());
    assert!(is_text_input(&not_input));
}

#[test]
fn sequence_yields_each_index_then_stops() {
    let mut walk = ElementSeq::new(true);
    let mut seen = Vec::new();
    while let Some(i) = walk.next_index(3) {
        seen.push(i);
    }
    assert_eq!(seen, vec![0, 1, 2]);
    assert!(walk.is_done());
    assert_eq!(walk.next_index(3), None);
    assert_eq!(walk.next_index(10), None);
}

#[test]
fn sequence_without_list_is_empty() {
    let mut walk = ElementSeq::new(false);
    assert_eq!(walk.next_index(5), None);
    assert!(walk.is_done());
    let mut empty = ElementSeq::new(true);
    assert_eq!(empty.next_index(0), None);
}

#[test]
fn match_pattern_finds_second() {
    let p = Pattern::new(r"\d+").unwrap();
    let markup = vec![Some("foo".to_string()), Some("bar123".to_string()), Some("baz".to_string())];
    assert_eq!(match_pattern(&markup, &p), Some(1));
}

#[test]
fn match_pattern_absent() {
    let p = Pattern::new(r"\d+").unwrap();
    let markup = vec![Some("foo".to_string()), Some("bar".to_string())];
    assert_eq!(match_pattern(&markup, &p), None);
}

#[test]
fn match_pattern_skips_missing_markup_and_takes_first() {
    let p = Pattern::new("a").unwrap();
    let markup = vec![None, Some("xa".to_string()), Some("a".to_string())];
    assert_eq!(match_pattern(&markup, &p), Some(1));
    assert_eq!(match_pattern(&Vec::new(), &p), None);
}

#[test]
fn pattern_compile_and_match() {
    assert!(Pattern::new("foo(bar").is_none());
    let p = Pattern::new("^b.r$").unwrap();
    assert!(p.is_match("bar"));
    assert!(!p.is_match("xbar"));
}

#[test]
fn first_match_positions() {
    assert_eq!(first_match(&vec![false, true, true]), Some(1));
    assert_eq!(first_match(&vec![false, false]), None);
    assert_eq!(first_match(&Vec::new()), None);
}

#[test]
fn mouse_event_fields() {
    let init = mouse_event_init("click", true);
    assert_eq!(init.event_type, "click");
    assert!(init.can_bubble && init.cancelable);
    assert_eq!((init.detail, init.screen_x, init.screen_y, init.client_x, init.client_y), (0, 0, 0, 0, 0));
    assert!(init.ctrl_key && !init.alt_key && !init.shift_key && !init.meta_key);
    assert_eq!(init.button, 0);
}

#[test]
fn mouse_event_without_view_fires_nothing() {
    assert!(mouse_event("click", false, true, false).is_none());
    assert!(mouse_event("click", false, false, true).is_none());
    assert!(click(true, true, false).is_none());
    let fired = mouse_event("mouseover", false, true, true).unwrap();
    assert_eq!(fired.event_type, "mouseover");
}

#[test]
fn named_mouse_events() {
    let c = click(true, true, true).unwrap();
    assert_eq!(c.event_type, "click");
    assert!(c.ctrl_key);
    let d = mouse_down(true, true).unwrap();
    assert_eq!(d.event_type, "mousedown");
    assert!(!d.ctrl_key);
    assert_eq!(mouse_out(true, true).unwrap().event_type, "mouseout");
    assert_eq!(mouse_over(true, true).unwrap().event_type, "mouseover");
}
