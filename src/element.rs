use vstd::prelude::*;

verus! {

/// The element kinds that the state predicates tell apart.
#[derive(Clone, Copy, Debug, PartialEq, Eq, Structural)]
pub enum ElementKind {
    Button,
    Input,
    Select,
    TextArea,
    FieldSet,
    Other,
}

/// What the predicates read of one element of the host tree.
#[derive(Clone, Debug)]
pub struct ElementInfo {
    /// The element's tag name as the host reports it (upper case for HTML).
    pub tag_name: Option<String>,
    pub kind: ElementKind,
    /// The element's own `disabled` flag; meaningful for the form kinds.
    pub disabled: bool,
    /// The `type` of an input element; meaningful for `ElementKind::Input`.
    pub input_type: Option<String>,
}

/// The computed style properties that decide whether an element is hidden.
#[derive(Clone, Debug)]
pub struct ComputedStyle {
    pub display: Option<String>,
    pub visibility: Option<String>,
    pub opacity: Option<String>,
}

/// One step of an offset-parent walk: the tag name and the computed style,
/// absent when the host could not compute one.
#[derive(Clone, Debug)]
pub struct StyledElement {
    pub tag_name: Option<String>,
    pub style: Option<ComputedStyle>,
}

/// A bounding rectangle, each edge rounded down to a whole CSS pixel.
///
/// The viewport's extent is a whole number of pixels, so the viewport test
/// gives the same answer on the rounded edges as on the exact ones.
#[derive(Clone, Copy, Debug, PartialEq, Eq, Structural)]
pub struct Rect {
    pub left: i64,
    pub right: i64,
    pub top: i64,
    pub bottom: i64,
}

/// The extent of the window's viewport, in CSS pixels.
#[derive(Clone, Copy, Debug, PartialEq, Eq, Structural)]
pub struct Viewport {
    pub inner_width: i64,
    pub inner_height: i64,
}

/// Whether an optional host string is present and equal to `lit`.
pub open spec fn opt_is(v: Option<String>, lit: Seq<char>) -> bool {
    match v {
        Some(t) => t@ == lit,
        None => false,
    }
}

/// Tests an optional host string against a literal.
pub fn opt_str_is(v: &Option<String>, lit: &str) -> (r: bool)
    ensures
        r == opt_is(*v, lit@),
{
    match v {
        Some(t) => {
            let expected = lit.to_owned();
            *t == expected
        },
        None => false,
    }
}

/// Whether a tag name is exactly `BODY`.
pub open spec fn is_body_spec(tag: Option<String>) -> bool {
    opt_is(tag, "BODY"@)
}

/// Tests a tag name for the document body.
pub fn is_body_tag(tag: &Option<String>) -> (r: bool)
    ensures
        r == is_body_spec(*tag),
{
    opt_str_is(tag, "BODY")
}

} // verus!
