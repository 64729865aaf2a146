//! The template renderer.
//!
//! `render` serializes a configuration document and substitutes every
//! occurrence of the source-directory placeholder `{src_dir}` with the
//! resolved source directory, escaped for the JSON string context it lands
//! in.  The substitution laws for the placeholder are proved in `subst`;
//! `lemma_render_removes_placeholder` instantiates them for `render`.

use crate::json::{escape_into, spec_escape, spec_json, write_json, JsonValue};
use crate::subst::{
    occurs, pattern_interior, replace_chars, spec_replace, lemma_replace_removes_pattern,
};
use crate::text::{chars_of, string_of};
use vstd::prelude::*;

verus! {

/// The placeholder token substituted by the resolved source directory.
pub open spec fn placeholder() -> Seq<char> {
    seq!['{', 's', 'r', 'c', '_', 'd', 'i', 'r', '}']
}

/// What `render` returns: the pretty-printed document, with every
/// occurrence of the placeholder replaced by the escaped source directory.
pub open spec fn spec_render(doc: JsonValue, src_dir: Seq<char>) -> Seq<char> {
    spec_replace(spec_json(doc, 0), placeholder(), spec_escape(src_dir))
}

/// The placeholder token as a character vector.
pub fn placeholder_chars() -> (r: Vec<char>)
    ensures
        r@ == placeholder(),
{
    let mut v: Vec<char> = Vec::new();
    v.push('{');
    v.push('s');
    v.push('r');
    v.push('c');
    v.push('_');
    v.push('d');
    v.push('i');
    v.push('r');
    v.push('}');
    proof {
        assert(v@ =~= placeholder());
    }
    v
}

/// Serializes `doc` and substitutes the placeholder with `src_dir`.
pub fn render(doc: &JsonValue, src_dir: &str) -> (r: String)
    ensures
        r@ == spec_render(*doc, src_dir@),
{
    let mut rendered: Vec<char> = Vec::new();
    let indent: Vec<char> = Vec::new();
    proof {
        assert(indent@ =~= crate::json::spec_indent(0));
    }
    write_json(doc, &indent, Ghost(0nat), &mut rendered);
    let pat = placeholder_chars();
    let src = chars_of(src_dir);
    let mut esc: Vec<char> = Vec::new();
    escape_into(&mut esc, &src);
    proof {
        assert(esc@ =~= spec_escape(src_dir@));
    }
    let out = replace_chars(&rendered, &pat, &esc);
    string_of(out)
}

/// After rendering, the placeholder does not occur in the output, provided
/// the source directory contains no brace and its escaped form does not
/// occur inside the placeholder's interior `src_dir`.  (A replacement that
/// breaks these conditions can splice a new occurrence together; a relative
/// source directory `src` is such an input.)
pub proof fn lemma_render_removes_placeholder(doc: JsonValue, src_dir: Seq<char>)
    requires
        !src_dir.contains('{'),
        !src_dir.contains('}'),
        !occurs(pattern_interior(placeholder()), spec_escape(src_dir)),
    ensures
        !occurs(spec_render(doc, src_dir), placeholder()),
{
    crate::json::lemma_escape_brace_free(src_dir, '{');
    crate::json::lemma_escape_brace_free(src_dir, '}');
    assert(placeholder()[0] == '{' && placeholder().last() == '}');
    lemma_replace_removes_pattern(spec_json(doc, 0), placeholder(), spec_escape(src_dir));
}

/// A convenient special case: for a source directory at least as long as
/// the placeholder's interior (every absolute path of eight characters or
/// more), only the brace conditions are needed.
pub proof fn lemma_render_removes_placeholder_long(doc: JsonValue, src_dir: Seq<char>)
    requires
        !src_dir.contains('{'),
        !src_dir.contains('}'),
        src_dir.len() >= 8,
    ensures
        !occurs(spec_render(doc, src_dir), placeholder()),
{
    crate::json::lemma_escape_longer(src_dir);
    assert(pattern_interior(placeholder()).len() == 7);
    assert(!occurs(pattern_interior(placeholder()), spec_escape(src_dir))) by {
        if occurs(pattern_interior(placeholder()), spec_escape(src_dir)) {
            let i = choose|i: int|
                crate::subst::match_at(pattern_interior(placeholder()), spec_escape(src_dir), i);
        }
    }
    lemma_render_removes_placeholder(doc, src_dir);
}

/// Rendering substitutes exactly once per occurrence of the placeholder in
/// the serialized document: the length of the output is the serialized
/// length, adjusted once per occurrence by the length difference between
/// the escaped source directory and the placeholder.
pub proof fn lemma_render_substitution_count(doc: JsonValue, src_dir: Seq<char>)
    ensures
        spec_render(doc, src_dir).len() == spec_json(doc, 0).len() + crate::subst::count_occurrences(
            spec_json(doc, 0),
            placeholder(),
        ) * (spec_escape(src_dir).len() as int - placeholder().len() as int),
{
    crate::subst::lemma_replace_length(spec_json(doc, 0), placeholder(), spec_escape(src_dir));
}

} // verus!
