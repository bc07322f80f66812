//! The text of the commands: one action line and one training line a turn.

use vstd::prelude::*;
use crate::codes::{S_BARRACKS, S_TOWER, U_ARCHER, U_GIANT, U_KNIGHT};
use crate::site::SiteType;

verus! {

/// The character that stands for the digit `d`.
pub open spec fn digit_char(d: int) -> char {
    if d == 0 {
        '0'
    } else if d == 1 {
        '1'
    } else if d == 2 {
        '2'
    } else if d == 3 {
        '3'
    } else if d == 4 {
        '4'
    } else if d == 5 {
        '5'
    } else if d == 6 {
        '6'
    } else if d == 7 {
        '7'
    } else if d == 8 {
        '8'
    } else {
        '9'
    }
}

/// The digits of `n` in base ten, without leading zeros.
pub open spec fn decimal_digits(n: nat) -> Seq<char>
    decreases n,
{
    if n < 10 {
        seq![digit_char(n as int)]
    } else {
        decimal_digits(n / 10).push(digit_char((n % 10) as int))
    }
}

/// The number `v` in base ten, with a minus sign before a negative one.
pub open spec fn decimal_text(v: int) -> Seq<char> {
    if v < 0 {
        seq!['-'] + decimal_digits((-v) as nat)
    } else {
        decimal_digits(v as nat)
    }
}

/// The name under which a structure is ordered. A barracks is ordered
/// together with the unit it will train, the knight.
pub open spec fn structure_name(kind: SiteType) -> Seq<char> {
    match kind {
        SiteType::Mine => "MINE"@,
        SiteType::Barracks => "BARRACKS-KNIGHT"@,
        SiteType::Tower => "TOWER"@,
        SiteType::Empty => Seq::empty(),
    }
}

/// The action line that builds a structure of kind `kind` on site `site`.
pub open spec fn build_text(site: int, kind: SiteType) -> Seq<char> {
    "BUILD "@ + decimal_text(site) + " "@ + structure_name(kind)
}

/// The action line that sends the hero to `(x, y)`.
pub open spec fn move_text(x: int, y: int) -> Seq<char> {
    "MOVE "@ + decimal_text(x) + " "@ + decimal_text(y)
}

/// The action line that does nothing.
pub open spec fn wait_text() -> Seq<char> {
    "WAIT"@
}

/// The identifiers `ids`, each with a space before it.
pub open spec fn id_list_text(ids: Seq<int>) -> Seq<char>
    decreases ids.len(),
{
    if ids.len() == 0 {
        Seq::empty()
    } else {
        id_list_text(ids.drop_last()) + " "@ + decimal_text(ids.last())
    }
}

/// The training line that starts training at the sites `ids`.
pub open spec fn train_text(ids: Seq<int>) -> Seq<char> {
    "TRAIN"@ + id_list_text(ids)
}

/// The numbers of `ids` as integers.
pub open spec fn as_ints(ids: Seq<i32>) -> Seq<int> {
    Seq::new(ids.len(), |i: int| ids[i] as int)
}

/// The numbers of `ids` as integers.
pub open spec fn sizes_as_ints(ids: Seq<usize>) -> Seq<int> {
    Seq::new(ids.len(), |i: int| ids[i] as int)
}

/// The name of the unit that the number `t_unit` stands for; empty for a
/// number that stands for none.
pub open spec fn unit_name(t_unit: int) -> Seq<char> {
    if t_unit == U_ARCHER {
        "ARCHER"@
    } else if t_unit == U_KNIGHT {
        "KNIGHT"@
    } else if t_unit == U_GIANT {
        "GIANT"@
    } else {
        Seq::empty()
    }
}

/// The name under which the structure with number `t_site` is ordered: a
/// barracks with the unit `t_unit` that it will train, a tower by itself;
/// empty for every other number.
pub open spec fn order_name(t_site: int, t_unit: int) -> Seq<char> {
    if t_site == S_BARRACKS {
        "BARRACKS"@ + "-"@ + unit_name(t_unit)
    } else if t_site == S_TOWER {
        "TOWER"@
    } else {
        Seq::empty()
    }
}

/// The action line that builds the structure with number `t_site` on site
/// `site_id`.
pub open spec fn make_built_text(site_id: int, t_site: int, t_unit: int) -> Seq<char> {
    "BUILD "@ + decimal_text(site_id) + " "@ + order_name(t_site, t_unit)
}

/// The one-character text of the digit `d`.
fn digit_str(d: u64) -> (text: &'static str)
    requires
        d < 10,
    ensures
        text@ == seq![digit_char(d as int)],
{
    proof {
        reveal_strlit("0");
        reveal_strlit("1");
        reveal_strlit("2");
        reveal_strlit("3");
        reveal_strlit("4");
        reveal_strlit("5");
        reveal_strlit("6");
        reveal_strlit("7");
        reveal_strlit("8");
        reveal_strlit("9");
    }
    let text = if d == 0 {
        "0"
    } else if d == 1 {
        "1"
    } else if d == 2 {
        "2"
    } else if d == 3 {
        "3"
    } else if d == 4 {
        "4"
    } else if d == 5 {
        "5"
    } else if d == 6 {
        "6"
    } else if d == 7 {
        "7"
    } else if d == 8 {
        "8"
    } else {
        "9"
    };
    text
}

/// Appends the digits of `n` to `out`.
pub fn push_natural(out: &mut String, n: u64)
    ensures
        final(out)@ == old(out)@ + decimal_digits(n as nat),
    decreases n,
{
    if n >= 10 {
        push_natural(out, n / 10);
    }
    out.append(digit_str(n % 10));
}

/// Appends the number `v` to `out`.
pub fn push_integer(out: &mut String, v: i64)
    ensures
        final(out)@ == old(out)@ + decimal_text(v as int),
{
    if v < 0 {
        proof {
            reveal_strlit("-");
        }
        out.append("-");
        push_natural(out, ((-(v + 1)) as u64) + 1);
    } else {
        push_natural(out, v as u64);
    }
}

/// The action line that builds a structure of kind `s_type` on site `site`.
pub fn built(site: i32, s_type: SiteType) -> (line: String)
    ensures
        line@ == build_text(site as int, s_type),
{
    let t = match s_type {
        SiteType::Mine => "MINE",
        SiteType::Barracks => "BARRACKS-KNIGHT",
        SiteType::Tower => "TOWER",
        SiteType::Empty => "",
    };
    proof {
        reveal_strlit("");
    }
    let mut line = String::from_str("BUILD ");
    push_integer(&mut line, site as i64);
    line.append(" ");
    line.append(t);
    line
}

/// The action line that sends the hero to `(x, y)`.
pub fn move_to(x: i32, y: i32) -> (line: String)
    ensures
        line@ == move_text(x as int, y as int),
{
    let mut line = String::from_str("MOVE ");
    push_integer(&mut line, x as i64);
    line.append(" ");
    push_integer(&mut line, y as i64);
    line
}

/// The action line that does nothing.
pub fn wait() -> (line: String)
    ensures
        line@ == wait_text(),
{
    String::from_str("WAIT")
}

/// The training line that starts training at the sites `ids`; with no
/// identifiers, the bare word.
pub fn train(ids: &Vec<i32>) -> (line: String)
    ensures
        line@ == train_text(as_ints(ids@)),
{
    let mut line = String::from_str("TRAIN");
    let mut i: usize = 0;
    while i < ids.len()
        invariant
            i <= ids.len(),
            line@ == train_text(as_ints(ids@).take(i as int)),
        decreases ids.len() - i,
    {
        line.append(" ");
        push_integer(&mut line, ids[i] as i64);
        proof {
            let before = as_ints(ids@).take(i as int);
            let after = as_ints(ids@).take(i + 1);
            assert(after.drop_last() =~= before);
        }
        i += 1;
    }
    assert(as_ints(ids@).take(i as int) =~= as_ints(ids@));
    line
}

/// The training line that starts training at the sites `ids`; with no
/// identifiers, the bare word.
pub fn train_at(ids: &Vec<usize>) -> (line: String)
    ensures
        line@ == train_text(sizes_as_ints(ids@)),
{
    let mut line = String::from_str("TRAIN");
    let mut i: usize = 0;
    while i < ids.len()
        invariant
            i <= ids.len(),
            line@ == train_text(sizes_as_ints(ids@).take(i as int)),
        decreases ids.len() - i,
    {
        line.append(" ");
        push_natural(&mut line, ids[i] as u64);
        proof {
            let before = sizes_as_ints(ids@).take(i as int);
            let after = sizes_as_ints(ids@).take(i + 1);
            assert(after.drop_last() =~= before);
        }
        i += 1;
    }
    assert(sizes_as_ints(ids@).take(i as int) =~= sizes_as_ints(ids@));
    line
}

/// The action line that builds the structure with number `t_site` on site
/// `site_id`; a barracks is ordered with the unit `t_unit`.
pub fn make_built(site_id: &usize, t_site: i32, t_unit: i32) -> (line: String)
    ensures
        line@ == make_built_text(*site_id as int, t_site as int, t_unit as int),
{
    proof {
        reveal_strlit("");
    }
    let unit = match t_unit {
        U_ARCHER => "ARCHER",
        U_KNIGHT => "KNIGHT",
        U_GIANT => "GIANT",
        _ => "",
    };
    let mut rb = String::new();
    if t_site == S_BARRACKS {
        rb.append("BARRACKS");
        rb.append("-");
        rb.append(unit);
    } else if t_site == S_TOWER {
        rb.append("TOWER");
    }
    let mut line = String::from_str("BUILD ");
    push_natural(&mut line, *site_id as u64);
    line.append(" ");
    line.append(rb.as_str());
    line
}

} // verus!
