use vstd::prelude::*;

use regex::Regex;

use crate::sequence::{ElementSeq, step};

verus! {

#[verifier::external_type_specification]
#[verifier::external_body]
pub struct ExRegex(Regex);

/// Whether `Regex::new` accepts the pattern (valid syntax, within the size
/// limit); this depends on the pattern alone.
pub uninterp spec fn regex_compiles(pattern: Seq<char>) -> bool;

/// Whether the regex compiled from `pattern` with the default options finds
/// a match anywhere in `text`.
pub uninterp spec fn regex_accepts(pattern: Seq<char>, text: Seq<char>) -> bool;

/// Relies on `regex::Regex::new`: compiles `src` with the default options and
/// fails exactly on the patterns it refuses.
#[verifier::external_body]
fn compile_regex(src: &str) -> (r: Option<Regex>)
    ensures
        r is Some <==> regex_compiles(src@),
{
    Regex::new(src).ok()
}

/// A regular expression together with its source.
///
/// The only constructor compiles `source` with the default options, so the
/// compiled form always answers for the source.
pub struct Pattern {
    source: String,
    regex: Regex,
}

impl View for Pattern {
    type V = Seq<char>;

    closed spec fn view(&self) -> Seq<char> {
        self.source@
    }
}

/// Relies on `regex::Regex::is_match`: true exactly when the regex matches
/// somewhere in `text`. The pattern's regex was compiled from its source by
/// `Regex::new`.
#[verifier::external_body]
fn regex_is_match(p: &Pattern, text: &str) -> (r: bool)
    ensures
        r == regex_accepts(p@, text@),
{
    p.regex.is_match(text)
}

impl Pattern {
    /// Compiles a pattern; `None` when the regex engine refuses it.
    pub fn new(src: &str) -> (r: Option<Pattern>)
        ensures
            r is Some <==> regex_compiles(src@),
            r is Some ==> r->0@ == src@,
    {
        match compile_regex(src) {
            Some(regex) => Some(Pattern { source: src.to_owned(), regex }),
            None => None,
        }
    }

    /// Whether the pattern matches somewhere in `text`.
    pub fn is_match(&self, text: &str) -> (r: bool)
        ensures
            r == regex_accepts(self@, text@),
    {
        regex_is_match(self, text)
    }
}

/// Whether the element at `i` has inner markup that `pattern` matches.
pub open spec fn markup_matches(markup: Seq<Option<String>>, pattern: Seq<char>, i: int) -> bool {
    markup[i] is Some && regex_accepts(pattern, markup[i]->0@)
}

/// The position of the first `true` in `matched`, if there is one.
pub fn first_match(matched: &Vec<bool>) -> (r: Option<usize>)
    ensures
        match r {
            Some(i) => i < matched@.len() && matched@[i as int] && forall|j: int|
                0 <= j < i ==> !#[trigger] matched@[j],
            None => forall|j: int| 0 <= j < matched@.len() ==> !#[trigger] matched@[j],
        },
{
    let mut i: usize = 0;
    while i < matched.len()
        invariant
            i <= matched@.len(),
            forall|j: int| 0 <= j < i ==> !#[trigger] matched@[j],
        decreases matched.len() - i,
    {
        if matched[i] {
            return Some(i);
        }
        i = i + 1;
    }
    None
}

/// Finds the first element, in document order, whose inner markup `pattern`
/// matches.
///
/// `markup` holds the inner markup of each element that the tag-name query
/// returned, in the host's order; an element without markup never matches.
/// The scan stops at the first match.
pub fn match_pattern(markup: &Vec<Option<String>>, pattern: &Pattern) -> (r: Option<usize>)
    ensures
        match r {
            Some(i) => i < markup@.len() && markup_matches(markup@, pattern@, i as int) && forall|
                j: int,
            | 0 <= j < i ==> !#[trigger] markup_matches(markup@, pattern@, j),
            None => forall|j: int|
                0 <= j < markup@.len() ==> !#[trigger] markup_matches(markup@, pattern@, j),
        },
{
    let n: usize = markup.len();
    let len = n as u64;
    let mut walk = ElementSeq::new(true);
    let mut matched: Vec<bool> = Vec::new();
    let mut found = false;
    while !found && !walk.is_done()
        invariant
            len == n,
            n == markup@.len(),
            walk.has_list,
            walk.index <= len,
            matched@.len() == walk.index,
            forall|j: int|
                0 <= j < walk.index ==> #[trigger] matched@[j] == markup_matches(
                    markup@,
                    pattern@,
                    j,
                ),
            found ==> walk.index > 0 && matched@[walk.index - 1],
            forall|j: int|
                0 <= j < walk.index - (if found { 1int } else { 0int }) ==> !#[trigger] matched@[j],
            walk.done ==> !found && walk.index == len,
        decreases 2 * (len - walk.index) + (if walk.done { 0int } else { 1int }),
    {
        match walk.next_index(len) {
            None => {},
            Some(i) => {
                let hit = match &markup[i as usize] {
                    Some(text) => pattern.is_match(text.as_str()),
                    None => false,
                };
                assert(hit == markup_matches(markup@, pattern@, i as int));
                matched.push(hit);
                found = hit;
            },
        }
    }
    let r = first_match(&matched);
    proof {
        assert forall|j: int| 0 <= j < matched@.len() implies #[trigger] markup_matches(
            markup@,
            pattern@,
            j,
        ) == matched@[j] by {}
    }
    r
}

} // verus!
