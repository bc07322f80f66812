//! The lines of the game's input: numbers in base ten with single spaces
//! between them.

use vstd::prelude::*;
use crate::geometry::P;
use crate::site::SiteOptions;
use crate::unit::Unit;

verus! {

/// A site as the setup announces it.
#[derive(Clone, Copy, Debug, PartialEq, Eq, Structural)]
pub struct SiteEntry {
    pub site_id: i32,
    pub p: P,
    pub radius: i32,
}

/// The first line of a turn.
#[derive(Clone, Copy, Debug, PartialEq, Eq, Structural)]
pub struct TurnHeader {
    pub gold: i32,
    /// The site that the hero touches, -1 for none.
    pub touched_site: i32,
}

/// What a turn shows of one site. The structure and the owner stand here by
/// their numbers.
#[derive(Clone, Copy, Debug, PartialEq, Eq, Structural)]
pub struct Observation {
    pub site_id: i32,
    pub structure_type: i32,
    pub owner: i32,
    pub options: SiteOptions,
}

/// The byte that parts the fields of a line.
pub const SPACE: u8 = 32;

/// The byte of the sign `+`.
pub const PLUS: u8 = 43;

/// The byte of the sign `-`.
pub const MINUS: u8 = 45;

/// The byte of the digit `0`.
pub const ZERO: u8 = 48;

/// The byte of the digit `9`.
pub const NINE: u8 = 57;

/// Whether `b` is blank: a space, a tab, a line feed, a vertical tab, a form
/// feed or a carriage return.
pub open spec fn is_blank(b: u8) -> bool {
    b == SPACE || (9 <= b && b <= 13)
}

/// Whether `b` is one of the digits `0` to `9`.
pub open spec fn is_digit(b: u8) -> bool {
    ZERO <= b && b <= NINE
}

/// `s` without the blanks at its start.
pub open spec fn trim_start(s: Seq<u8>) -> Seq<u8>
    decreases s.len(),
{
    if s.len() > 0 && is_blank(s[0]) {
        trim_start(s.skip(1))
    } else {
        s
    }
}

/// `s` without the blanks at its end.
pub open spec fn trim_end(s: Seq<u8>) -> Seq<u8>
    decreases s.len(),
{
    if s.len() > 0 && is_blank(s.last()) {
        trim_end(s.drop_last())
    } else {
        s
    }
}

/// `s` without the blanks at its start and at its end.
pub open spec fn trimmed(s: Seq<u8>) -> Seq<u8> {
    trim_end(trim_start(s))
}

/// `s` is one digit or more, and nothing else.
pub open spec fn all_digits(s: Seq<u8>) -> bool {
    s.len() > 0 && forall|i: int| 0 <= i < s.len() ==> is_digit(#[trigger] s[i])
}

/// The number that the digits `s` write in base ten.
pub open spec fn digits_value(s: Seq<u8>) -> int
    decreases s.len(),
{
    if s.len() == 0 {
        0
    } else {
        digits_value(s.drop_last()) * 10 + (s.last() - ZERO)
    }
}

/// The digits of `s`: all of it but a sign at its start.
pub open spec fn unsigned_part(s: Seq<u8>) -> Seq<u8> {
    if s.len() > 0 && (s[0] == MINUS || s[0] == PLUS) {
        s.skip(1)
    } else {
        s
    }
}

/// The number that `s` writes: digits, with a `+` or a `-` before them if
/// any, that give a number from `i32::MIN` to `i32::MAX`. Anything else
/// writes no number.
pub open spec fn number_of(s: Seq<u8>) -> Option<int> {
    let digits = unsigned_part(s);
    let value = if s.len() > 0 && s[0] == MINUS {
        -digits_value(digits)
    } else {
        digits_value(digits)
    };
    if all_digits(digits) && i32::MIN <= value <= i32::MAX {
        Some(value)
    } else {
        None
    }
}

/// The number that the field `s` writes, blanks around it set aside.
pub open spec fn field_number(s: Seq<u8>) -> Option<int> {
    number_of(trimmed(s))
}

/// How many bytes stand before the first space of `s`.
pub open spec fn first_space(s: Seq<u8>) -> int
    decreases s.len(),
{
    if s.len() == 0 || s[0] == SPACE {
        0
    } else {
        1 + first_space(s.skip(1))
    }
}

/// The fields of the line `s`: what stands between its spaces. A line
/// without a space is one field.
pub open spec fn split_fields(s: Seq<u8>) -> Seq<Seq<u8>>
    decreases s.len(),
{
    let k = first_space(s);
    if k < 0 || k >= s.len() {
        seq![s]
    } else {
        seq![s.take(k)] + split_fields(s.skip(k + 1))
    }
}

/// The first `count` fields of the line `s` each write a number.
pub open spec fn has_numbers(s: Seq<u8>, count: nat) -> bool {
    &&& split_fields(s).len() >= count
    &&& forall|k: int| 0 <= k < count ==> field_number(#[trigger] split_fields(s)[k]) is Some
}

/// The numbers that the first `count` fields of the line `s` write.
pub open spec fn numbers(s: Seq<u8>, count: nat) -> Seq<int> {
    Seq::new(count, |k: int| field_number(split_fields(s)[k])->0)
}

/// A blank at the start of a stretch of `s` can be left out before
/// trimming.
proof fn lemma_trim_start_step(s: Seq<u8>, lo: int, hi: int)
    requires
        0 <= lo < hi <= s.len(),
        is_blank(s[lo]),
    ensures
        trim_start(s.subrange(lo, hi)) == trim_start(s.subrange(lo + 1, hi)),
{
    assert(s.subrange(lo, hi).skip(1) =~= s.subrange(lo + 1, hi));
}

/// A blank at the end of a stretch of `s` can be left out before trimming.
proof fn lemma_trim_end_step(s: Seq<u8>, lo: int, hi: int)
    requires
        0 <= lo < hi <= s.len(),
        is_blank(s[hi - 1]),
    ensures
        trim_end(s.subrange(lo, hi)) == trim_end(s.subrange(lo, hi - 1)),
{
    assert(s.subrange(lo, hi).drop_last() =~= s.subrange(lo, hi - 1));
}

/// One more digit multiplies the number by ten and adds the digit.
proof fn lemma_digits_step(s: Seq<u8>, lo: int, hi: int)
    requires
        0 <= lo <= hi < s.len(),
    ensures
        digits_value(s.subrange(lo, hi + 1)) == digits_value(s.subrange(lo, hi)) * 10 + (s[hi]
            - ZERO),
{
    assert(s.subrange(lo, hi + 1).drop_last() =~= s.subrange(lo, hi));
}

/// Whether `b` is blank.
fn blank(b: u8) -> (r: bool)
    ensures
        r == is_blank(b),
{
    b == SPACE || (9 <= b && b <= 13)
}

/// The number that the bytes of `line` from `from` up to `to` write, blanks
/// around it set aside.
fn parse_range(line: &[u8], from: usize, to: usize) -> (r: Option<i32>)
    requires
        from <= to <= line@.len(),
    ensures
        match r {
            Some(v) => field_number(line@.subrange(from as int, to as int)) == Some(v as int),
            None => field_number(line@.subrange(from as int, to as int)) is None,
        },
{
    let ghost field = line@.subrange(from as int, to as int);
    let mut lo: usize = from;
    while lo < to && blank(line[lo])
        invariant
            from <= lo <= to <= line@.len(),
            trim_start(field) == trim_start(line@.subrange(lo as int, to as int)),
        decreases to - lo,
    {
        proof {
            lemma_trim_start_step(line@, lo as int, to as int);
        }
        lo += 1;
    }
    let mut hi: usize = to;
    while lo < hi && blank(line[hi - 1])
        invariant
            lo <= hi <= to <= line@.len(),
            trimmed(field) == trim_end(line@.subrange(lo as int, hi as int)),
        decreases hi - lo,
    {
        proof {
            lemma_trim_end_step(line@, lo as int, hi as int);
        }
        hi -= 1;
    }
    let ghost token = line@.subrange(lo as int, hi as int);
    let negative = lo < hi && line[lo] == MINUS;
    let start: usize = if lo < hi && (line[lo] == MINUS || line[lo] == PLUS) {
        lo + 1
    } else {
        lo
    };
    let ghost digits = line@.subrange(start as int, hi as int);
    if start == hi {
        return None;
    }
    let mut value: i64 = 0;
    let mut i: usize = start;
    while i < hi
        invariant
            start <= i <= hi <= line@.len(),
            forall|j: int| start <= j < i ==> is_digit(#[trigger] line@[j]),
            0 <= value <= 0x8000_0001,
            value == digits_value(line@.subrange(start as int, i as int)) || (value == 0x8000_0001
                && digits_value(line@.subrange(start as int, i as int)) >= 0x8000_0001),
            digits == line@.subrange(start as int, hi as int),
            field == line@.subrange(from as int, to as int),
            field_number(field) == number_of(token),
            unsigned_part(token) == digits,
        decreases hi - i,
    {
        let b = line[i];
        if b < ZERO || b > NINE {
            assert(!is_digit(digits[i - start]));
            return None;
        }
        proof {
            lemma_digits_step(line@, start as int, i as int);
        }
        value = value * 10 + (b - ZERO) as i64;
        if value > 0x8000_0001 {
            value = 0x8000_0001;
        }
        i += 1;
    }
    assert(all_digits(digits));
    if negative {
        if value > 0x8000_0000 {
            None
        } else {
            Some((-value) as i32)
        }
    } else if value > 0x7fff_ffff {
        None
    } else {
        Some(value as i32)
    }
}

/// The number that `token` writes, blanks around it set aside: digits, with
/// a `+` or a `-` before them if any, that give a number from `i32::MIN` to
/// `i32::MAX`.
pub fn parse_int(token: &[u8]) -> (r: Option<i32>)
    ensures
        match r {
            Some(v) => field_number(token@) == Some(v as int),
            None => field_number(token@) is None,
        },
{
    assert(token@.subrange(0, token@.len() as int) =~= token@);
    parse_range(token, 0, token.len())
}

/// A byte that is no space puts the first space one place further.
proof fn lemma_first_space_step(s: Seq<u8>, at: int)
    requires
        0 <= at < s.len(),
        s[at] != SPACE,
    ensures
        first_space(s.skip(at)) == 1 + first_space(s.skip(at + 1)),
{
    assert(s.skip(at).skip(1) =~= s.skip(at + 1));
}

/// Where the field of `line` that starts at `from` ends: at the next space,
/// or at the end of the line.
fn field_end(line: &[u8], from: usize) -> (end: usize)
    requires
        from <= line@.len(),
    ensures
        from <= end <= line@.len(),
        end - from == first_space(line@.skip(from as int)),
{
    let mut end: usize = from;
    while end < line.len() && line[end] != SPACE
        invariant
            from <= end <= line@.len(),
            first_space(line@.skip(from as int)) == (end - from) + first_space(
                line@.skip(end as int),
            ),
        decreases line@.len() - end,
    {
        proof {
            lemma_first_space_step(line@, end as int);
        }
        end += 1;
    }
    end
}

/// The numbers that the first `count` fields of `line` write, if the line
/// has as many fields and each of them writes a number. What follows those
/// fields is not read.
pub fn parse_fields(line: &[u8], count: usize) -> (r: Option<Vec<i32>>)
    ensures
        match r {
            Some(v) => {
                &&& has_numbers(line@, count as nat)
                &&& v@.len() == count
                &&& forall|k: int|
                    0 <= k < count ==> (#[trigger] v@[k]) as int == numbers(
                        line@,
                        count as nat,
                    )[k]
            },
            None => !has_numbers(line@, count as nat),
        },
{
    let ghost fields = split_fields(line@);
    let mut nums: Vec<i32> = Vec::new();
    let mut pos: usize = 0;
    let mut done = false;
    assert(line@.skip(0) =~= line@);
    while nums.len() < count
        invariant
            fields == split_fields(line@),
            nums@.len() <= count,
            nums@.len() <= fields.len(),
            forall|j: int|
                0 <= j < nums@.len() ==> field_number(#[trigger] fields[j]) == Some(
                    nums@[j] as int,
                ),
            done ==> fields.len() == nums@.len(),
            !done ==> pos <= line@.len() && fields == fields.take(nums@.len() as int)
                + split_fields(line@.skip(pos as int)),
        decreases count - nums@.len(),
    {
        if done {
            return None;
        }
        let ghost k = nums@.len() as int;
        let ghost rest = line@.skip(pos as int);
        let end = field_end(line, pos);
        proof {
            assert(rest.take(end - pos) =~= line@.subrange(pos as int, end as int));
            if end < line@.len() {
                assert(rest.skip(end - pos + 1) =~= line@.skip(end + 1));
                assert(fields[k] == rest.take(end - pos));
            } else {
                assert(fields[k] == rest);
            }
        }
        match parse_range(line, pos, end) {
            Some(v) => {
                nums.push(v);
            },
            None => {
                return None;
            },
        }
        if end < line.len() {
            pos = end + 1;
        } else {
            done = true;
        }
    }
    Some(nums)
}

/// Reads a site of the setup: identifier, place and radius.
pub fn parse_site(line: &[u8]) -> (r: Option<SiteEntry>)
    ensures
        match r {
            Some(e) => has_numbers(line@, 4) && e.site_id == numbers(line@, 4)[0] && e.p.0
                == numbers(line@, 4)[1] && e.p.1 == numbers(line@, 4)[2] && e.radius == numbers(
                line@,
                4,
            )[3],
            None => !has_numbers(line@, 4),
        },
{
    match parse_fields(line, 4) {
        Some(v) => Some(SiteEntry { site_id: v[0], p: P(v[1], v[2]), radius: v[3] }),
        None => None,
    }
}

/// Reads the first line of a turn: the gold, and the site that the hero
/// touches.
pub fn parse_turn(line: &[u8]) -> (r: Option<TurnHeader>)
    ensures
        match r {
            Some(t) => has_numbers(line@, 2) && t.gold == numbers(line@, 2)[0] && t.touched_site
                == numbers(line@, 2)[1],
            None => !has_numbers(line@, 2),
        },
{
    match parse_fields(line, 2) {
        Some(v) => Some(TurnHeader { gold: v[0], touched_site: v[1] }),
        None => None,
    }
}

/// Reads what a turn shows of one site: the identifier, two numbers that
/// are passed over, the structure, the owner, and the two attributes of the
/// structure.
pub fn parse_observation(line: &[u8]) -> (r: Option<Observation>)
    ensures
        match r {
            Some(o) => {
                &&& has_numbers(line@, 7)
                &&& o.site_id == numbers(line@, 7)[0]
                &&& o.structure_type == numbers(line@, 7)[3]
                &&& o.owner == numbers(line@, 7)[4]
                &&& o.options.gold_remaining == numbers(line@, 7)[5]
                &&& o.options.max_mine_size == numbers(line@, 7)[6]
            },
            None => !has_numbers(line@, 7),
        },
{
    match parse_fields(line, 7) {
        Some(v) => Some(
            Observation {
                site_id: v[0],
                structure_type: v[3],
                owner: v[4],
                options: SiteOptions::new(v[5], v[6]),
            },
        ),
        None => None,
    }
}

/// Reads a unit: place, owner, kind and health.
pub fn parse_unit(line: &[u8]) -> (r: Option<Unit>)
    ensures
        match r {
            Some(u) => {
                &&& has_numbers(line@, 5)
                &&& u.p.0 == numbers(line@, 5)[0]
                &&& u.p.1 == numbers(line@, 5)[1]
                &&& u.owner == numbers(line@, 5)[2]
                &&& u.t_unit == numbers(line@, 5)[3]
                &&& u.health == numbers(line@, 5)[4]
            },
            None => !has_numbers(line@, 5),
        },
{
    match parse_fields(line, 5) {
        Some(v) => Some(Unit::new(v[3], (v[0], v[1]), v[2], v[4])),
        None => None,
    }
}

} // verus!
