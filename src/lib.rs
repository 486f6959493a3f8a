//! DOM introspection and interaction decisions for a browser extension.
//!
//! The host engine owns the live tree; the functions here work on plain
//! snapshots of what they read from it and return plain answers.

mod element;
mod event;
mod pattern;
mod sequence;
mod state;

pub use element::{
    ComputedStyle, ElementInfo, ElementKind, Rect, StyledElement, Viewport, is_body_tag, opt_str_is,
};
pub use state::{
    is_enabled, is_hidden, is_suppressed, is_text_input, is_text_input_type, is_visible,
    lemma_body_stops_walk, lemma_default_type_is_text, lemma_non_form_control_enabled,
};
pub use sequence::{ElementSeq, lemma_absent_list_yields_nothing, lemma_walk_yields_each_index};
pub use pattern::{Pattern, first_match, match_pattern};
pub use event::{MouseEventInit, click, mouse_down, mouse_event, mouse_event_init, mouse_out, mouse_over};
