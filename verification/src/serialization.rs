//! The compact text tables ("toon") that query answers carry.

use vstd::prelude::*;
use vstd::string::*;
use crate::text::{concat_strs, decimal, u64_to_decimal};
use crate::config::{lemma_views_push, views};

verus! {

broadcast use vstd::string::group_string_axioms;

/// The parts laid end to end with `sep` between each two of them.
pub open spec fn join_with(parts: Seq<Seq<char>>, sep: Seq<char>) -> Seq<char>
    decreases parts.len(),
{
    if parts.len() == 0 {
        Seq::empty()
    } else if parts.len() == 1 {
        parts[0]
    } else {
        join_with(parts.drop_last(), sep) + sep + parts.last()
    }
}

/// `parts` joined with `sep` between each two of them, as `[String]::join` does.
pub fn join_strings(parts: &[String], sep: &str) -> (s: String)
    ensures
        s@ == join_with(views(parts@), sep@),
{
    let ghost ps = views(parts@);
    let mut s = String::new();
    let n = parts.len();
    for i in 0..n
        invariant
            n == parts@.len(),
            ps == views(parts@),
            s@ == join_with(ps.take(i as int), sep@),
    {
        assert(ps.take(i as int + 1).drop_last() =~= ps.take(i as int));
        if i != 0 {
            s.append(sep);
        } else {
            assert(s@ =~= Seq::<char>::empty());
        }
        s.append(parts[i].as_str());
    }
    assert(ps.take(n as int) =~= ps);
    s
}

/// The characters of each `&str` of a sequence.
pub open spec fn str_views(v: Seq<&str>) -> Seq<Seq<char>> {
    v.map_values(|s: &str| s@)
}

/// The lines of a table: the label with the row count in brackets, then the
/// headers, then one line per row, each of the last two indented by two spaces
/// and with single spaces between the cells.
pub open spec fn toon_lines(label: Seq<char>, headers: Seq<Seq<char>>, rows: Seq<Seq<Seq<char>>>) -> Seq<Seq<char>> {
    seq![
        label + " ["@ + decimal(rows.len()) + "]"@,
        "  "@ + join_with(headers, " "@),
    ] + rows.map_values(|row: Seq<Seq<char>>| "  "@ + join_with(row, " "@))
}

/// A table as text: its lines with a newline between each two.
pub open spec fn spec_toon(label: Seq<char>, headers: Seq<Seq<char>>, rows: Seq<Seq<Seq<char>>>) -> Seq<char> {
    join_with(toon_lines(label, headers, rows), "\n"@)
}

/// The cells of each row of a table.
pub open spec fn row_views(rows: Seq<Vec<String>>) -> Seq<Seq<Seq<char>>> {
    rows.map_values(|row: Vec<String>| views(row@))
}

/// A table in the compact text form: "label [n]", then the headers, then the rows.
pub fn to_toon(label: &str, headers: &[&str], rows: &[Vec<String>]) -> (text: String)
    ensures
        text@ == spec_toon(label@, str_views(headers@), row_views(rows@)),
{
    let ghost lines = toon_lines(label@, str_views(headers@), row_views(rows@));
    let mut header_strings: Vec<String> = Vec::new();
    for i in 0..headers.len()
        invariant
            views(header_strings@) == str_views(headers@).take(i as int),
    {
        let h = String::from_str(headers[i]);
        let ghost prev = header_strings@;
        header_strings.push(h);
        proof {
            lemma_views_push(prev, h);
        }
        assert(views(header_strings@) =~= str_views(headers@).take(i as int + 1));
    }
    assert(str_views(headers@).take(headers@.len() as int) =~= str_views(headers@));

    let count = u64_to_decimal(rows.len() as u64);
    let first = concat_strs(concat_strs(concat_strs(label, " [").as_str(), count.as_str()).as_str(), "]");
    let second = concat_strs("  ", join_strings(header_strings.as_slice(), " ").as_str());
    let mut out: Vec<String> = Vec::new();
    out.push(first);
    out.push(second);
    assert(views(out@) =~= lines.take(2));
    let n = rows.len();
    for i in 0..n
        invariant
            n == rows@.len(),
            lines == toon_lines(label@, str_views(headers@), row_views(rows@)),
            lines.len() == n + 2,
            views(out@) == lines.take(i as int + 2),
    {
        let line = concat_strs("  ", join_strings(rows[i].as_slice(), " ").as_str());
        assert(row_views(rows@)[i as int] == views(rows@[i as int]@));
        assert(lines[i + 2] == "  "@ + join_with(row_views(rows@)[i as int], " "@));
        let ghost prev = out@;
        out.push(line);
        proof {
            lemma_views_push(prev, line);
        }
        assert(views(out@) =~= lines.take(i as int + 3));
    }
    assert(lines.take(n as int + 2) =~= lines);
    join_strings(out.as_slice(), "\n")
}

} // verus!
