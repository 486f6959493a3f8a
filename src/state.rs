use vstd::prelude::*;

use crate::element::{
    ComputedStyle, ElementInfo, ElementKind, Rect, StyledElement, Viewport, is_body_spec,
    is_body_tag, opt_is, opt_str_is,
};

verus! {

/// Button, input, select and text area: the kinds whose enablement is
/// inherited from their ancestors.
pub open spec fn is_form_control(k: ElementKind) -> bool {
    k == ElementKind::Button || k == ElementKind::Input || k == ElementKind::Select
        || k == ElementKind::TextArea
}

/// A kind that carries a `disabled` flag which disables what it encloses.
pub open spec fn can_disable(k: ElementKind) -> bool {
    is_form_control(k) || k == ElementKind::FieldSet
}

/// Walks `chain` from position `i` upwards: enabled when `BODY` comes before
/// any disabled control or field set.
pub open spec fn enabled_from(chain: Seq<ElementInfo>, i: int) -> bool
    decreases chain.len() - i,
{
    if i < 0 || i >= chain.len() {
        true
    } else if is_body_spec(chain[i].tag_name) {
        true
    } else if can_disable(chain[i].kind) && chain[i].disabled {
        false
    } else {
        enabled_from(chain, i + 1)
    }
}

/// The enablement of `chain[0]`, where `chain[k + 1]` is the parent element
/// of `chain[k]`.
pub open spec fn enabled_along(chain: Seq<ElementInfo>) -> bool {
    chain.len() == 0 || !is_form_control(chain[0].kind) || enabled_from(chain, 0)
}

/// Whether the element `chain[0]` is enabled.
///
/// `chain` lists the element and then its ancestors by parent element, as far
/// as the host reports them. Elements that are not form controls are always
/// enabled; a form control is disabled when it, or an enclosing control or
/// field set below `BODY`, is disabled.
pub fn is_enabled(chain: &Vec<ElementInfo>) -> (r: bool)
    ensures
        r == enabled_along(chain@),
{
    if chain.len() == 0 {
        return true;
    }
    let k = chain[0].kind;
    let form = match k {
        ElementKind::Button | ElementKind::Input | ElementKind::Select | ElementKind::TextArea => true,
        _ => false,
    };
    assert(form == is_form_control(chain@[0].kind));
    if !form {
        return true;
    }
    let mut i: usize = 0;
    while i < chain.len()
        invariant
            i <= chain.len(),
            chain.len() > 0,
            is_form_control(chain@[0].kind),
            enabled_from(chain@, 0) == enabled_from(chain@, i as int),
        decreases chain.len() - i,
    {
        let el = &chain[i];
        if is_body_tag(&el.tag_name) {
            return true;
        }
        let blocks = match el.kind {
            ElementKind::Other => false,
            _ => true,
        };
        assert(blocks == can_disable(chain@[i as int].kind));
        if blocks && el.disabled {
            assert(!enabled_from(chain@, i as int));
            return false;
        }
        i = i + 1;
    }
    true
}

proof fn lemma_walk_reaches_body(chain: Seq<ElementInfo>, i: int, k: int)
    requires
        0 <= k <= i < chain.len(),
        is_body_spec(chain[i].tag_name),
        forall|j: int| 0 <= j < i ==> !is_body_spec(#[trigger] chain[j].tag_name) && !(
        can_disable(chain[j].kind) && chain[j].disabled),
    ensures
        enabled_from(chain, k),
    decreases i - k,
{
    if k < i {
        lemma_walk_reaches_body(chain, i, k + 1);
    }
}

/// The walk stops at `BODY`: once it reaches a body element (no control or
/// field set before it was disabled), the element is enabled, whatever lies
/// above the body.
pub proof fn lemma_body_stops_walk(chain: Seq<ElementInfo>, i: int)
    requires
        0 <= i < chain.len(),
        is_body_spec(chain[i].tag_name),
        forall|j: int| 0 <= j < i ==> !is_body_spec(#[trigger] chain[j].tag_name) && !(
        can_disable(chain[j].kind) && chain[j].disabled),
    ensures
        enabled_along(chain),
        forall|rest: Seq<ElementInfo>| #[trigger] enabled_along(chain.subrange(0, i + 1) + rest),
{
    lemma_walk_reaches_body(chain, i, 0);
    assert forall|rest: Seq<ElementInfo>| #[trigger] enabled_along(chain.subrange(0, i + 1) + rest) by {
        let c = chain.subrange(0, i + 1) + rest;
        assert forall|j: int| 0 <= j <= i implies #[trigger] c[j] == chain[j] by {}
        assert forall|j: int| 0 <= j < i implies !is_body_spec(#[trigger] c[j].tag_name) && !(
        can_disable(c[j].kind) && c[j].disabled) by {
            assert(c[j] == chain[j]);
        }
        assert(c[i] == chain[i]);
        lemma_walk_reaches_body(c, i, 0);
    }
}

/// A style that takes the element out of sight: `display: none`,
/// `visibility: hidden` or `opacity: 0`, compared as strings.
pub open spec fn suppressed(st: ComputedStyle) -> bool {
    opt_is(st.display, "none"@) || opt_is(st.visibility, "hidden"@) || opt_is(st.opacity, "0"@)
}

/// Walks `chain` from position `i` upwards: not hidden only when `BODY` comes
/// before any element without a style or with a suppressing style.
pub open spec fn hidden_from(chain: Seq<StyledElement>, i: int) -> bool
    decreases chain.len() - i,
{
    if i < 0 || i >= chain.len() {
        true
    } else if is_body_spec(chain[i].tag_name) {
        false
    } else {
        match chain[i].style {
            None => true,
            Some(st) => suppressed(st) || hidden_from(chain, i + 1),
        }
    }
}

/// Whether `chain[0]` is hidden, where `chain[k + 1]` is the offset parent of
/// `chain[k]`; without a default view the element counts as hidden.
pub open spec fn hidden_along(has_view: bool, chain: Seq<StyledElement>) -> bool {
    !has_view || hidden_from(chain, 0)
}

/// Tests a computed style for `display: none`, `visibility: hidden` or
/// `opacity: 0`.
pub fn is_suppressed(st: &ComputedStyle) -> (r: bool)
    ensures
        r == suppressed(*st),
{
    opt_str_is(&st.display, "none") || opt_str_is(&st.visibility, "hidden") || opt_str_is(
        &st.opacity,
        "0",
    )
}

/// Whether the element `chain[0]` is hidden by its style or that of an offset
/// ancestor.
///
/// `has_view` tells whether the document has a default view; `chain` lists the
/// element and then its offset parents. The walk answers false at `BODY`, true
/// at a suppressing style or a missing one, and true when it ends without
/// reaching `BODY`. An element outside the viewport need not be hidden.
pub fn is_hidden(has_view: bool, chain: &Vec<StyledElement>) -> (r: bool)
    ensures
        r == hidden_along(has_view, chain@),
{
    if !has_view {
        return true;
    }
    let mut i: usize = 0;
    while i < chain.len()
        invariant
            i <= chain.len(),
            has_view,
            hidden_from(chain@, 0) == hidden_from(chain@, i as int),
        decreases chain.len() - i,
    {
        let el = &chain[i];
        if is_body_tag(&el.tag_name) {
            return false;
        }
        match &el.style {
            None => {
                return true;
            },
            Some(st) => {
                if is_suppressed(st) {
                    return true;
                }
            },
        }
        i = i + 1;
    }
    true
}

/// Whether a rectangle meets the viewport `[0, width) x [0, height)`: on each
/// axis one of its edges is not negative and its near edge lies before the
/// far side of the viewport.
pub open spec fn visible_spec(view: Option<Viewport>, rect: Option<Rect>) -> bool {
    match (view, rect) {
        (Some(v), Some(r)) => (r.left >= 0 || r.right >= 0) && r.left < v.inner_width && (r.top
            >= 0 || r.bottom >= 0) && r.top < v.inner_height,
        _ => false,
    }
}

/// Whether an element's bounding rectangle lies at least partly in the
/// viewport; false without a default view or without a rectangle.
pub fn is_visible(view: Option<Viewport>, rect: Option<Rect>) -> (r: bool)
    ensures
        r == visible_spec(view, rect),
{
    match (view, rect) {
        (Some(v), Some(b)) => (b.left >= 0 || b.right >= 0) && b.left < v.inner_width && (b.top
            >= 0 || b.bottom >= 0) && b.top < v.inner_height,
        _ => false,
    }
}

/// The input types that do not take free text.
pub open spec fn non_text_type(t: Seq<char>) -> bool {
    t == "button"@ || t == "checkbox"@ || t == "color"@ || t == "file"@ || t == "hidden"@ || t
        == "image"@ || t == "radio"@ || t == "reset"@ || t == "submit"@
}

/// The input type the classification goes by: that of an input element, or
/// `text` when the element is no input or reports no type.
pub open spec fn logical_input_type(e: ElementInfo) -> Seq<char> {
    if e.kind == ElementKind::Input && e.input_type is Some {
        e.input_type->0@
    } else {
        "text"@
    }
}

/// Whether an input type takes free text: every type but button, checkbox,
/// color, file, hidden, image, radio, reset and submit, unknown ones included.
pub fn is_text_input_type(t: &str) -> (r: bool)
    ensures
        r == !non_text_type(t@),
{
    let s = t.to_owned();
    let non_text = s == "button".to_owned() || s == "checkbox".to_owned() || s == "color".to_owned()
        || s == "file".to_owned() || s == "hidden".to_owned() || s == "image".to_owned() || s
        == "radio".to_owned() || s == "reset".to_owned() || s == "submit".to_owned();
    !non_text
}

/// Whether an element is a text input (text, number, tel, search, ...).
pub fn is_text_input(element: &ElementInfo) -> (r: bool)
    ensures
        r == !non_text_type(logical_input_type(*element)),
{
    match (&element.kind, &element.input_type) {
        (ElementKind::Input, Some(t)) => is_text_input_type(t.as_str()),
        _ => is_text_input_type("text"),
    }
}

/// The default type `text` takes free text, so an element that is no input,
/// or an input that reports no type, counts as a text input.
pub proof fn lemma_default_type_is_text(e: ElementInfo)
    requires
        e.kind != ElementKind::Input || e.input_type is None,
    ensures
        logical_input_type(e) == "text"@,
        !non_text_type(logical_input_type(e)),
{
    reveal_strlit("text");
    reveal_strlit("button");
    reveal_strlit("checkbox");
    reveal_strlit("color");
    reveal_strlit("file");
    reveal_strlit("hidden");
    reveal_strlit("image");
    reveal_strlit("radio");
    reveal_strlit("reset");
    reveal_strlit("submit");
    assert("text"@[0] != "button"@[0]);
}

/// Any element that is not a form control is enabled.
pub proof fn lemma_non_form_control_enabled(chain: Seq<ElementInfo>)
    requires
        chain.len() > 0,
        !is_form_control(chain[0].kind),
    ensures
        enabled_along(chain),
{
}

} // verus!
