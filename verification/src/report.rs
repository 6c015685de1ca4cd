//! The lines in which the matches of one file are reported.

use crate::symbol::{SymbolMatch, SymbolMatchView};
use vstd::prelude::*;
use vstd::string::StringExecFns;

verus! {

/// The line for one match: two spaces, the name, a space, and the kind's
/// tag in square brackets.
pub open spec fn match_line_spec(m: SymbolMatchView) -> Seq<char> {
    "  "@ + m.name + " ["@ + m.kind.spec_tag() + "]"@
}

/// The lines for one file: none where nothing matched, else the path and
/// below it one line for each match, in the order of the matches.
pub open spec fn report_lines_spec(path: Seq<char>, matches: Seq<SymbolMatchView>) -> Seq<
    Seq<char>,
> {
    if matches.len() == 0 {
        Seq::empty()
    } else {
        seq![path] + matches.map_values(|m: SymbolMatchView| match_line_spec(m))
    }
}

/// The texts of a run of lines, in the same order.
pub open spec fn line_views(lines: Seq<String>) -> Seq<Seq<char>> {
    lines.map_values(|line: String| line@)
}

/// Writes the line for one match.
pub fn match_line(m: &SymbolMatch) -> (line: String)
    ensures
        line@ == match_line_spec(m@),
{
    let mut line = String::from_str("  ");
    line.append(m.name.as_str());
    line.append(" [");
    line.append(m.kind.tag());
    line.append("]");
    line
}

/// Writes the report of one file. A file without a match gets no line at
/// all, not even its path.
pub fn report_lines(path: &str, matches: &[SymbolMatch]) -> (lines: Vec<String>)
    ensures
        line_views(lines@) == report_lines_spec(
            path@,
            matches@.map_values(|m: SymbolMatch| m@),
        ),
{
    let mut lines: Vec<String> = Vec::new();
    let ghost views = matches@.map_values(|m: SymbolMatch| m@);
    if matches.len() == 0 {
        assert(line_views(lines@) =~= Seq::empty());
        return lines;
    }
    lines.push(String::from_str(path));
    let mut i: usize = 0;
    assert(line_views(lines@) =~= seq![path@] + views.take(0).map_values(
        |m: SymbolMatchView| match_line_spec(m),
    ));
    while i < matches.len()
        invariant
            i <= matches.len(),
            views == matches@.map_values(|m: SymbolMatch| m@),
            line_views(lines@) == seq![path@] + views.take(i as int).map_values(
                |m: SymbolMatchView| match_line_spec(m),
            ),
        decreases matches.len() - i,
    {
        let ghost before = line_views(lines@);
        let line = match_line(&matches[i]);
        lines.push(line);
        assert(line_views(lines@) =~= before.push(line@));
        assert(views.take(i + 1).map_values(|m: SymbolMatchView| match_line_spec(m))
            =~= views.take(i as int).map_values(|m: SymbolMatchView| match_line_spec(m)).push(
            match_line_spec(views[i as int]),
        ));
        assert(line_views(lines@) =~= seq![path@] + views.take(i + 1).map_values(
            |m: SymbolMatchView| match_line_spec(m),
        ));
        i += 1;
    }
    assert(views.take(i as int) =~= views);
    lines
}

} // verus!
