use crate::node::{NodeProfile, TunnelPath};
use vstd::prelude::*;
use vstd::string::*;

verus! {

/// The column headers of the node table.
pub fn column_header(col: usize) -> (r: Option<&'static str>)
    ensures
        r is Some <==> col < 3,
{
    if col == 0 {
        Some("Server Host")
    } else if col == 1 {
        Some("Server Port")
    } else if col == 2 {
        Some("Tunnel Path")
    } else {
        None
    }
}

pub open spec fn digit_char(d: nat) -> char {
    if d == 0 { '0' } else if d == 1 { '1' } else if d == 2 { '2' } else if d == 3 { '3' }
    else if d == 4 { '4' } else if d == 5 { '5' } else if d == 6 { '6' } else if d == 7 { '7' }
    else if d == 8 { '8' } else { '9' }
}

/// The decimal digits of `n`, without leading zeros.
pub open spec fn decimal(n: nat) -> Seq<char>
    decreases n,
{
    if n < 10 {
        seq![digit_char(n)]
    } else {
        decimal(n / 10) + seq![digit_char(n % 10)]
    }
}

fn digit_text(d: u64) -> (r: &'static str)
    requires
        d < 10,
    ensures
        r@ == seq![digit_char(d as nat)],
{
    proof {
        reveal_strlit("0");
        reveal_strlit("1");
        reveal_strlit("2");
        reveal_strlit("3");
        reveal_strlit("4");
        reveal_strlit("5");
        reveal_strlit("6");
        reveal_strlit("7");
        reveal_strlit("8");
        reveal_strlit("9");
    }
    if d == 0 { "0" } else if d == 1 { "1" } else if d == 2 { "2" } else if d == 3 { "3" }
    else if d == 4 { "4" } else if d == 5 { "5" } else if d == 6 { "6" } else if d == 7 { "7" }
    else if d == 8 { "8" } else { "9" }
}

/// `n` written in decimal.
pub fn decimal_text(n: u64) -> (r: String)
    ensures
        r@ == decimal(n as nat),
    decreases n,
{
    if n < 10 {
        String::from_str(digit_text(n))
    } else {
        let mut s = decimal_text(n / 10);
        s.append(digit_text(n % 10));
        s
    }
}

/// Texts joined with commas between them.
pub open spec fn comma_joined(s: Seq<Seq<char>>) -> Seq<char>
    decreases s.len(),
{
    if s.len() == 0 {
        Seq::empty()
    } else if s.len() == 1 {
        s[0]
    } else {
        comma_joined(s.drop_last()) + ","@ + s.last()
    }
}

pub open spec fn texts(v: Seq<String>) -> Seq<Seq<char>> {
    v.map_values(|s: String| s@)
}

/// How a tunnel path is shown: the path, or the paths joined with commas.
pub open spec fn tunnel_path_text(p: TunnelPath) -> Seq<char> {
    match p {
        TunnelPath::Single(s) => s@,
        TunnelPath::Multiple(v) => comma_joined(texts(v@)),
    }
}

pub fn tunnel_path_string(p: &TunnelPath) -> (r: String)
    ensures
        r@ == tunnel_path_text(*p),
{
    match p {
        TunnelPath::Single(s) => s.clone(),
        TunnelPath::Multiple(v) => {
            let mut out = String::new();
            let mut i: usize = 0;
            while i < v.len()
                invariant
                    i <= v@.len(),
                    out@ == comma_joined(texts(v@).subrange(0, i as int)),
                decreases v@.len() - i,
            {
                proof {
                    let t = texts(v@);
                    assert(t.subrange(0, i + 1).drop_last() =~= t.subrange(0, i as int));
                    assert(t.subrange(0, i + 1).last() == v@[i as int]@);
                    if i == 0 {
                        assert(out@ =~= Seq::<char>::empty());
                    }
                }
                if i > 0 {
                    out.append(",");
                }
                out.append(v[i].as_str());
                proof {
                    if i == 0 {
                        assert(out@ =~= v@[0]@);
                    }
                }
                i += 1;
            }
            assert(texts(v@).subrange(0, v@.len() as int) =~= texts(v@));
            out
        },
    }
}

/// The text in column `col` of a node's row: server host, server port,
/// tunnel path; a profile without client settings says so.
pub open spec fn cell_text_of(n: NodeProfile, col: int) -> Seq<char> {
    if col == 0 {
        match n.client {
            Some(c) => c.server_host@,
            None => "Not a client config"@,
        }
    } else if col == 1 {
        match n.client {
            Some(c) => decimal(c.server_port as nat),
            None => "0"@,
        }
    } else if col == 2 {
        tunnel_path_text(n.tunnel_path)
    } else {
        Seq::empty()
    }
}

pub fn cell_text(n: &NodeProfile, col: i32) -> (r: String)
    ensures
        r@ == cell_text_of(*n, col as int),
{
    if col == 0 {
        match &n.client {
            Some(c) => c.server_host.clone(),
            None => String::from_str("Not a client config"),
        }
    } else if col == 1 {
        match &n.client {
            Some(c) => decimal_text(c.server_port as u64),
            None => String::from_str("0"),
        }
    } else if col == 2 {
        tunnel_path_string(&n.tunnel_path)
    } else {
        String::new()
    }
}

/// The row header: a check mark where the row is selected, then the remarks.
pub open spec fn row_header_text_of(remarks: Option<Seq<char>>, selected: bool, wide_mark: bool) -> Seq<char> {
    let mark = if !selected {
        "     "@
    } else if wide_mark {
        "\u{2714}  "@
    } else {
        "\u{2714} "@
    };
    mark + match remarks {
        Some(r) => r,
        None => Seq::empty(),
    }
}

pub fn row_header_text(remarks: &Option<String>, selected: bool, wide_mark: bool) -> (r: String)
    ensures
        r@ == row_header_text_of(crate::settings::opt_view(*remarks), selected, wide_mark),
{
    let mut t = if !selected {
        String::from_str("     ")
    } else if wide_mark {
        String::from_str("\u{2714}  ")
    } else {
        String::from_str("\u{2714} ")
    };
    if let Some(r) = remarks {
        t.append(r.as_str());
    } else {
        assert(t@ + Seq::<char>::empty() =~= t@);
    }
    t
}

/// The part of the table that a mouse event hit.
#[derive(Clone, Copy, Debug, PartialEq, Eq, Structural)]
pub enum TableArea {
    Cell,
    RowHeader,
    ColHeader,
    Table,
    Nowhere,
    Other,
}

/// The selection after a left click, and whether the click was handled: a
/// click on a row selects it; one on a column header or on empty space
/// clears the selection; any other leaves it.
pub open spec fn left_click_of(area: TableArea, row: i32, current: Option<usize>) -> (Option<usize>, bool) {
    if (area == TableArea::Cell || area == TableArea::RowHeader) && row >= 0 {
        (Some(row as usize), true)
    } else if area == TableArea::ColHeader || area == TableArea::Nowhere || area == TableArea::Table {
        (None, true)
    } else {
        (current, false)
    }
}

pub fn left_click(area: TableArea, row: i32, current: Option<usize>) -> (r: (Option<usize>, bool))
    ensures
        r == left_click_of(area, row, current),
{
    if (area == TableArea::Cell || area == TableArea::RowHeader) && row >= 0 {
        (Some(row as usize), true)
    } else if area == TableArea::ColHeader || area == TableArea::Nowhere || area == TableArea::Table {
        (None, true)
    } else {
        (current, false)
    }
}

/// The node row that a click hit, where it hit one of the `count` rows.
pub fn node_row_at(area: TableArea, row: i32, count: usize) -> (r: Option<usize>)
    ensures
        r is Some <==> ((area == TableArea::Cell || area == TableArea::RowHeader) && 0 <= row
            && row < count),
        r matches Some(i) ==> i == row,
{
    if (area == TableArea::Cell || area == TableArea::RowHeader) && row >= 0 && (row as usize) < count {
        Some(row as usize)
    } else {
        None
    }
}

} // verus!
