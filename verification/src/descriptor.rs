//! Build-descriptor rewrites, as literal line-sequence transformations:
//! a descriptor is read as an ordered sequence of lines, edited by
//! position, and written back whole.
//!
//! The leaf descriptor's head line is replaced by a project declaration
//! for the display name.  The root descriptor's trailing two lines (the
//! template's directives for its placeholder sub-projects) are dropped
//! and a single directive for the new project is appended; a root
//! descriptor with fewer than two lines is rejected rather than cut
//! short.

use vstd::prelude::*;

verus! {

/// The view of a line sequence: each line as a sequence of characters.
pub open spec fn lines_model(l: Seq<String>) -> Seq<Seq<char>> {
    l.map_values(|s: String| s@)
}

/// The declaration line written at the head of the leaf descriptor.
pub open spec fn project_line(name: Seq<char>) -> Seq<char> {
    "project \""@ + name + "\""@
}

/// The directive appended at the tail of the root descriptor.
pub open spec fn directive_line(name: Seq<char>) -> Seq<char> {
    "inclu"@ + "de \""@ + name + "\""@
}

/// The leaf descriptor after its rewrite: the head line replaced by the
/// project declaration, every other line kept; an empty descriptor is
/// left empty.
pub open spec fn leaf_rewrite(lines: Seq<Seq<char>>, name: Seq<char>) -> Seq<Seq<char>> {
    if lines.len() == 0 {
        lines
    } else {
        lines.update(0, project_line(name))
    }
}

/// The root descriptor after its rewrite: the last two lines dropped and
/// the directive for the new project appended, so the line count shrinks
/// by exactly one.
pub open spec fn root_rewrite(lines: Seq<Seq<char>>, name: Seq<char>) -> Seq<Seq<char>>
    recommends
        lines.len() >= 2,
{
    lines.take(lines.len() - 2) + seq![directive_line(name)]
}

/// Builds the leaf descriptor's project declaration line.
pub fn render_project_line(name: &str) -> (r: String)
    ensures
        r@ == project_line(name@),
{
    let mut line = String::from_str("project \"");
    line.append(name);
    line.append("\"");
    line
}

/// Builds the root descriptor's directive line.
pub fn render_directive_line(name: &str) -> (r: String)
    ensures
        r@ == directive_line(name@),
{
    let mut line = String::from_str("inclu");
    line.append("de \"");
    line.append(name);
    line.append("\"");
    line
}

/// Rewrites the leaf descriptor in place.
pub fn rewrite_leaf(lines: &mut Vec<String>, name: &str)
    ensures
        lines_model(final(lines)@) == leaf_rewrite(lines_model(old(lines)@), name@),
{
    if lines.len() > 0 {
        let decl = render_project_line(name);
        lines.set(0, decl);
    }
    proof {
        assert(lines_model(final(lines)@) =~= leaf_rewrite(lines_model(old(lines)@), name@));
    }
}

/// Rewrites the root descriptor, or reports that it is too short to hold
/// the trailer that the rewrite replaces.
pub fn rewrite_root(lines: Vec<String>, name: &str) -> (r: Option<Vec<String>>)
    ensures
        r is Some <==> lines@.len() >= 2,
        r matches Some(out) ==> lines_model(out@) == root_rewrite(lines_model(lines@), name@),
        r matches Some(out) ==> out@.len() == lines@.len() - 1,
{
    if lines.len() < 2 {
        return None;
    }
    let mut out = lines;
    out.pop();
    out.pop();
    let directive = render_directive_line(name);
    out.push(directive);
    proof {
        assert(lines_model(out@) =~= root_rewrite(lines_model(lines@), name@));
    }
    Some(out)
}

} // verus!
