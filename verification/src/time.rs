use vstd::prelude::*;
use vstd::string::StringExecFns;

use chrono::Datelike;
use chrono::Timelike;

verus! {

/// A local wall-clock reading at one-second resolution, split into
/// calendar fields.
#[derive(Clone, Copy, Debug, PartialEq, Eq, Structural)]
pub struct LocalTime {
    pub year: i32,
    pub month: u8,
    pub day: u8,
    pub hour: u8,
    pub minute: u8,
    pub second: u8,
}

impl LocalTime {
    /// Every field fits the fixed-width `YYYY-MM-DD_HH-MM-SS` file name.
    pub open spec fn wf(self) -> bool {
        &&& 0 <= self.year <= 9999
        &&& 1 <= self.month <= 12
        &&& 1 <= self.day <= 31
        &&& self.hour <= 23
        &&& self.minute <= 59
        &&& self.second <= 59
    }
}

/// The decimal digit character for `d` in `0..=9`.
pub open spec fn digit_char(d: int) -> char {
    if d == 0 {
        '0'
    } else if d == 1 {
        '1'
    } else if d == 2 {
        '2'
    } else if d == 3 {
        '3'
    } else if d == 4 {
        '4'
    } else if d == 5 {
        '5'
    } else if d == 6 {
        '6'
    } else if d == 7 {
        '7'
    } else if d == 8 {
        '8'
    } else {
        '9'
    }
}

/// `n` in `0..=99` as two decimal digit characters, zero padded.
pub open spec fn two_digits(n: int) -> Seq<char> {
    seq![digit_char(n / 10), digit_char(n % 10)]
}

/// `n` in `0..=9999` as four decimal digit characters, zero padded.
pub open spec fn four_digits(n: int) -> Seq<char> {
    seq![
        digit_char(n / 1000),
        digit_char((n / 100) % 10),
        digit_char((n / 10) % 10),
        digit_char(n % 10),
    ]
}

/// The timestamp `t` formatted `YYYY-MM-DD_HH-MM-SS`.
pub open spec fn spec_timestamp(t: LocalTime) -> Seq<char> {
    four_digits(t.year as int) + seq!['-'] + two_digits(t.month as int) + seq!['-'] + two_digits(
        t.day as int,
    ) + seq!['_'] + two_digits(t.hour as int) + seq!['-'] + two_digits(t.minute as int)
        + seq!['-'] + two_digits(t.second as int)
}

/// The path of the snapshot taken at `t`, relative to the application's
/// data directory: `screenshot/<timestamp>.png`.
pub open spec fn spec_rel_path(t: LocalTime) -> Seq<char> {
    "screenshot/"@ + spec_timestamp(t) + ".png"@
}

/// The one-character string for digit `d`.
fn digit_str(d: u8) -> (r: &'static str)
    requires
        d <= 9,
    ensures
        r@ == seq![digit_char(d as int)],
{
    proof {
        reveal_strlit("0");
        reveal_strlit("1");
        reveal_strlit("2");
        reveal_strlit("3");
        reveal_strlit("4");
        reveal_strlit("5");
        reveal_strlit("6");
        reveal_strlit("7");
        reveal_strlit("8");
        reveal_strlit("9");
    }
    match d {
        0 => "0",
        1 => "1",
        2 => "2",
        3 => "3",
        4 => "4",
        5 => "5",
        6 => "6",
        7 => "7",
        8 => "8",
        _ => "9",
    }
}

/// Appends `n` to `s` as two zero-padded decimal digits.
fn push_two_digits(s: &mut String, n: u8)
    requires
        n <= 99,
    ensures
        final(s)@ == old(s)@ + two_digits(n as int),
{
    s.append(digit_str(n / 10));
    s.append(digit_str(n % 10));
    proof {
        assert(s@ =~= old(s)@ + two_digits(n as int));
    }
}

/// Appends `n` to `s` as four zero-padded decimal digits.
fn push_four_digits(s: &mut String, n: u16)
    requires
        n <= 9999,
    ensures
        final(s)@ == old(s)@ + four_digits(n as int),
{
    s.append(digit_str((n / 1000) as u8));
    s.append(digit_str(((n / 100) % 10) as u8));
    s.append(digit_str(((n / 10) % 10) as u8));
    s.append(digit_str((n % 10) as u8));
    proof {
        assert(s@ =~= old(s)@ + four_digits(n as int));
    }
}

/// Formats `t` as `YYYY-MM-DD_HH-MM-SS`, the name under which the
/// snapshot taken during that local-time second is persisted.
pub fn timestamp_name(t: &LocalTime) -> (r: String)
    requires
        t.wf(),
    ensures
        r@ == spec_timestamp(*t),
{
    proof {
        reveal_strlit("-");
        reveal_strlit("_");
    }
    let mut s = String::new();
    push_four_digits(&mut s, t.year as u16);
    s.append("-");
    push_two_digits(&mut s, t.month);
    s.append("-");
    push_two_digits(&mut s, t.day);
    s.append("_");
    push_two_digits(&mut s, t.hour);
    s.append("-");
    push_two_digits(&mut s, t.minute);
    s.append("-");
    push_two_digits(&mut s, t.second);
    proof {
        assert(s@ =~= spec_timestamp(*t));
    }
    s
}

/// Builds the snapshot path for `t`, relative to the application's data
/// directory: `screenshot/<timestamp>.png`. Within one local-time second
/// every call returns the same path, so a second persist in that second
/// overwrites the first file rather than adding one.
pub fn snapshot_rel_path(t: &LocalTime) -> (r: String)
    requires
        t.wf(),
    ensures
        r@ == spec_rel_path(*t),
{
    proof {
        reveal_strlit("screenshot/");
        reveal_strlit(".png");
    }
    let mut s = String::from_str("screenshot/");
    let name = timestamp_name(t);
    s.append(name.as_str());
    s.append(".png");
    proof {
        assert(s@ =~= spec_rel_path(*t));
    }
    s
}

/// Persisting any two images during the same local-time second targets
/// the same relative path: at most one file survives at it, the later
/// write overwriting the earlier — documented behaviour, not an error.
pub proof fn lemma_same_second_same_path(t1: LocalTime, t2: LocalTime)
    requires
        t1 == t2,
    ensures
        spec_rel_path(t1) == spec_rel_path(t2),
{
}

/// Equal digit characters come from equal digits.
proof fn lemma_digit_char_injective(a: int, b: int)
    requires
        0 <= a <= 9,
        0 <= b <= 9,
        digit_char(a) == digit_char(b),
    ensures
        a == b,
{
}

/// A two-digit rendering determines its number.
proof fn lemma_two_digits_injective(a: int, b: int)
    requires
        0 <= a <= 99,
        0 <= b <= 99,
        two_digits(a) == two_digits(b),
    ensures
        a == b,
{
    assert(two_digits(a)[0] == two_digits(b)[0]);
    assert(two_digits(a)[1] == two_digits(b)[1]);
    lemma_digit_char_injective(a / 10, b / 10);
    lemma_digit_char_injective(a % 10, b % 10);
}

/// A four-digit rendering determines its number.
proof fn lemma_four_digits_injective(a: int, b: int)
    requires
        0 <= a <= 9999,
        0 <= b <= 9999,
        four_digits(a) == four_digits(b),
    ensures
        a == b,
{
    assert(four_digits(a)[0] == four_digits(b)[0]);
    assert(four_digits(a)[1] == four_digits(b)[1]);
    assert(four_digits(a)[2] == four_digits(b)[2]);
    assert(four_digits(a)[3] == four_digits(b)[3]);
    lemma_digit_char_injective(a / 1000, b / 1000);
    lemma_digit_char_injective((a / 100) % 10, (b / 100) % 10);
    lemma_digit_char_injective((a / 10) % 10, (b / 10) % 10);
    lemma_digit_char_injective(a % 10, b % 10);
    assert(a == (a / 1000) * 1000 + ((a / 100) % 10) * 100 + ((a / 10) % 10) * 10 + a % 10)
        by (nonlinear_arith)
        requires
            0 <= a <= 9999,
    ;
    assert(b == (b / 1000) * 1000 + ((b / 100) % 10) * 100 + ((b / 10) % 10) * 10 + b % 10)
        by (nonlinear_arith)
        requires
            0 <= b <= 9999,
    ;
}

/// The formatted timestamp determines every field of a well-formed
/// reading: two distinct local-time seconds never collide on a name, so
/// only two persists within the same second share a file.
pub proof fn lemma_timestamp_injective(t1: LocalTime, t2: LocalTime)
    requires
        t1.wf(),
        t2.wf(),
        spec_timestamp(t1) == spec_timestamp(t2),
    ensures
        t1 == t2,
{
    let s1 = spec_timestamp(t1);
    let s2 = spec_timestamp(t2);
    assert(four_digits(t1.year as int) =~= four_digits(t2.year as int)) by {
        assert forall|i: int| 0 <= i < 4 implies four_digits(t1.year as int)[i] == four_digits(
            t2.year as int,
        )[i] by {
            assert(s1[i] == s2[i]);
        }
    }
    lemma_four_digits_injective(t1.year as int, t2.year as int);
    assert(two_digits(t1.month as int) =~= two_digits(t2.month as int)) by {
        assert forall|i: int| 0 <= i < 2 implies two_digits(t1.month as int)[i] == two_digits(
            t2.month as int,
        )[i] by {
            assert(s1[5 + i] == s2[5 + i]);
        }
    }
    lemma_two_digits_injective(t1.month as int, t2.month as int);
    assert(two_digits(t1.day as int) =~= two_digits(t2.day as int)) by {
        assert forall|i: int| 0 <= i < 2 implies two_digits(t1.day as int)[i] == two_digits(
            t2.day as int,
        )[i] by {
            assert(s1[8 + i] == s2[8 + i]);
        }
    }
    lemma_two_digits_injective(t1.day as int, t2.day as int);
    assert(two_digits(t1.hour as int) =~= two_digits(t2.hour as int)) by {
        assert forall|i: int| 0 <= i < 2 implies two_digits(t1.hour as int)[i] == two_digits(
            t2.hour as int,
        )[i] by {
            assert(s1[11 + i] == s2[11 + i]);
        }
    }
    lemma_two_digits_injective(t1.hour as int, t2.hour as int);
    assert(two_digits(t1.minute as int) =~= two_digits(t2.minute as int)) by {
        assert forall|i: int| 0 <= i < 2 implies two_digits(t1.minute as int)[i] == two_digits(
            t2.minute as int,
        )[i] by {
            assert(s1[14 + i] == s2[14 + i]);
        }
    }
    lemma_two_digits_injective(t1.minute as int, t2.minute as int);
    assert(two_digits(t1.second as int) =~= two_digits(t2.second as int)) by {
        assert forall|i: int| 0 <= i < 2 implies two_digits(t1.second as int)[i] == two_digits(
            t2.second as int,
        )[i] by {
            assert(s1[17 + i] == s2[17 + i]);
        }
    }
    lemma_two_digits_injective(t1.second as int, t2.second as int);
}

/// Snapshot paths collide exactly on the wall-clock second: the relative
/// path embeds the timestamp at a fixed offset, so distinct well-formed
/// readings always yield distinct paths.
pub proof fn lemma_rel_path_injective(t1: LocalTime, t2: LocalTime)
    requires
        t1.wf(),
        t2.wf(),
        spec_rel_path(t1) == spec_rel_path(t2),
    ensures
        t1 == t2,
{
    reveal_strlit("screenshot/");
    let p1 = spec_rel_path(t1);
    let p2 = spec_rel_path(t2);
    assert(spec_timestamp(t1) =~= spec_timestamp(t2)) by {
        assert forall|i: int| 0 <= i < 19 implies spec_timestamp(t1)[i] == spec_timestamp(t2)[i] by {
            assert(p1[11 + i] == p2[11 + i]);
        }
    }
    lemma_timestamp_injective(t1, t2);
}

/// Relies on chrono's `Local::now` and its `Datelike` / `Timelike`
/// getters: month runs 1 to 12, day 1 to 31, hour 0 to 23, minute and
/// second 0 to 59. Nothing is promised of the year. `Local::now` panics
/// if the system clock reads before the Unix epoch — a fault of the
/// environment, which no precondition on values can exclude.
#[verifier::external_body]
fn now_local_parts() -> (r: (i32, u8, u8, u8, u8, u8))
    ensures
        1 <= r.1 <= 12,
        1 <= r.2 <= 31,
        r.3 <= 23,
        r.4 <= 59,
        r.5 <= 59,
{
    let now = chrono::Local::now();
    (
        now.year(),
        now.month() as u8,
        now.day() as u8,
        now.hour() as u8,
        now.minute() as u8,
        now.second() as u8,
    )
}

/// Reads the local wall clock as calendar fields, the year clamped into
/// the four digits that the file-name format carries.
pub fn now_local() -> (r: LocalTime)
    ensures
        r.wf(),
{
    let (year, month, day, hour, minute, second) = now_local_parts();
    let y: i32 = if year < 0 {
        0
    } else if year > 9999 {
        9999
    } else {
        year
    };
    LocalTime { year: y, month, day, hour, minute, second }
}

} // verus!
