//! Timestamps for backup-branch names and commit messages.
//!
//! A `Timestamp` carries the calendar fields as plain integers; reading the
//! clock is the only operation left to an outside crate. Formatting is done
//! here, fully verified, as `<YYYY-MM-DD>_<HH-MM-SS>_<microseconds>`.

use vstd::prelude::*;
use vstd::string::StrSliceExecFns;
use vstd::string::StringExecFns;

verus! {

/// The decimal digit for a value below ten.
pub open spec fn digit_char(d: nat) -> char {
    if d == 0 {
        '0'
    } else if d == 1 {
        '1'
    } else if d == 2 {
        '2'
    } else if d == 3 {
        '3'
    } else if d == 4 {
        '4'
    } else if d == 5 {
        '5'
    } else if d == 6 {
        '6'
    } else if d == 7 {
        '7'
    } else if d == 8 {
        '8'
    } else {
        '9'
    }
}

/// The decimal representation of `n`, most significant digit first,
/// without leading zeros (a single `'0'` for zero).
pub open spec fn dec_rep(n: nat) -> Seq<char>
    decreases n,
{
    if n < 10 {
        seq![digit_char(n)]
    } else {
        dec_rep(n / 10).push(digit_char(n % 10))
    }
}

/// `s` left-padded with `'0'` up to `width` characters.
pub open spec fn zero_pad(s: Seq<char>, width: nat) -> Seq<char> {
    if s.len() >= width {
        s
    } else {
        Seq::new((width - s.len()) as nat, |i: int| '0') + s
    }
}

/// The decimal representation of `n`, zero-padded to at least `width` digits.
pub open spec fn padded_dec(n: nat, width: nat) -> Seq<char> {
    zero_pad(dec_rep(n), width)
}

fn digit_str(d: u64) -> (r: &'static str)
    requires
        d < 10,
    ensures
        r@ == seq![digit_char(d as nat)],
{
    let r: &'static str = match d {
        0 => "0",
        1 => "1",
        2 => "2",
        3 => "3",
        4 => "4",
        5 => "5",
        6 => "6",
        7 => "7",
        8 => "8",
        _ => "9",
    };
    proof {
        reveal_strlit("0");
        reveal_strlit("1");
        reveal_strlit("2");
        reveal_strlit("3");
        reveal_strlit("4");
        reveal_strlit("5");
        reveal_strlit("6");
        reveal_strlit("7");
        reveal_strlit("8");
        reveal_strlit("9");
        assert(r@ =~= seq![digit_char(d as nat)]);
    }
    r
}

/// Formats `n` in decimal, zero-padded on the left to at least `width` digits.
pub fn decimal_padded(n: u64, width: usize) -> (r: String)
    ensures
        r@ == padded_dec(n as nat, width as nat),
{
    let mut m: u64 = n;
    let mut res = String::new();
    loop
        invariant_except_break
            res@.len() == 0 ==> m == n,
            res@.len() > 0 ==> m > 0 && dec_rep(n as nat) == dec_rep(m as nat) + res@,
        ensures
            res@ == dec_rep(n as nat),
        decreases m,
    {
        let ghost m0: nat = m as nat;
        let d: u64 = m % 10;
        let prefix = String::from_str(digit_str(d));
        res = prefix.concat(res.as_str());
        m = m / 10;
        proof {
            if m0 >= 10 {
                assert(dec_rep(m0) =~= dec_rep((m0 / 10) as nat) + seq![digit_char(m0 % 10)]);
            }
            if m == 0 {
                assert(res@ =~= dec_rep(n as nat));
            } else {
                assert(dec_rep(n as nat) =~= dec_rep(m as nat) + res@);
            }
        }
        if m == 0 {
            break;
        }
    }
    let mut dlen: usize = res.as_str().unicode_len();
    while dlen < width
        invariant
            dlen == res@.len(),
            dlen >= dec_rep(n as nat).len(),
            res@ == zero_pad(dec_rep(n as nat), dlen as nat),
            dlen <= width || dlen == dec_rep(n as nat).len(),
        decreases width - dlen,
    {
        let prefix = String::from_str("0");
        res = prefix.concat(res.as_str());
        dlen = dlen + 1;
        proof {
            reveal_strlit("0");
            assert(res@ =~= zero_pad(dec_rep(n as nat), dlen as nat));
        }
    }
    proof {
        assert(res@ =~= padded_dec(n as nat, width as nat));
    }
    res
}

/// A signed value in decimal, the absolute value zero-padded to `width` digits.
pub open spec fn signed_padded_dec(v: int, width: nat) -> Seq<char> {
    if v < 0 {
        seq!['-'] + padded_dec((-v) as nat, width)
    } else {
        padded_dec(v as nat, width)
    }
}

/// One reading of the local clock, as plain calendar fields.
///
/// `micros` may reach 1,999,999: a leap second is reported as an overlong
/// final second.
pub struct Timestamp {
    pub year: i32,
    pub month: u8,
    pub day: u8,
    pub hour: u8,
    pub minute: u8,
    pub second: u8,
    pub micros: u32,
}

impl Timestamp {
    /// The ranges every clock reading satisfies.
    pub open spec fn wf(self) -> bool {
        &&& -262143 <= self.year <= 262142
        &&& 1 <= self.month <= 12
        &&& 1 <= self.day <= 31
        &&& self.hour < 24
        &&& self.minute < 60
        &&& self.second < 60
        &&& self.micros < 2000000
    }

    /// `<YYYY-MM-DD>_<HH-MM-SS>_<microseconds>`, each field zero-padded.
    pub open spec fn spec_format(self) -> Seq<char> {
        signed_padded_dec(self.year as int, 4) + seq!['-'] + padded_dec(self.month as nat, 2)
            + seq!['-'] + padded_dec(self.day as nat, 2) + seq!['_'] + padded_dec(
            self.hour as nat,
            2,
        ) + seq!['-'] + padded_dec(self.minute as nat, 2) + seq!['-'] + padded_dec(
            self.second as nat,
            2,
        ) + seq!['_'] + padded_dec(self.micros as nat, 6)
    }

    /// Decides whether the fields lie inside the clock's ranges.
    pub fn valid(&self) -> (r: bool)
        ensures
            r == self.wf(),
    {
        self.year >= -262143 && self.year <= 262142 && self.month >= 1 && self.month <= 12
            && self.day >= 1 && self.day <= 31 && self.hour < 24 && self.minute < 60
            && self.second < 60 && self.micros < 2000000
    }

    /// Formats the timestamp for use in branch names and commit messages.
    pub fn format(&self) -> (r: String)
        requires
            self.wf(),
        ensures
            r@ == self.spec_format(),
    {
        let mut s: String = if self.year < 0 {
            let abs: u64 = (-(self.year as i64)) as u64;
            String::from_str("-").concat(decimal_padded(abs, 4).as_str())
        } else {
            decimal_padded(self.year as u64, 4)
        };
        s.append("-");
        s.append(decimal_padded(self.month as u64, 2).as_str());
        s.append("-");
        s.append(decimal_padded(self.day as u64, 2).as_str());
        s.append("_");
        s.append(decimal_padded(self.hour as u64, 2).as_str());
        s.append("-");
        s.append(decimal_padded(self.minute as u64, 2).as_str());
        s.append("-");
        s.append(decimal_padded(self.second as u64, 2).as_str());
        s.append("_");
        s.append(decimal_padded(self.micros as u64, 6).as_str());
        proof {
            reveal_strlit("-");
            reveal_strlit("_");
            assert(s@ =~= self.spec_format());
        }
        s
    }
}

/// Reads the local clock.
///
/// Relies on `chrono::Local::now` and chrono's `Datelike`/`Timelike`
/// accessors: the month is 1 to 12, the day 1 to 31, the hour below 24, the
/// minute and second below 60, the subsecond microseconds below 2,000,000
/// (a leap second exceeds 999,999), and the year inside chrono's calendar
/// range.
#[verifier::external_body]
pub fn now() -> (t: Timestamp)
    ensures
        t.wf(),
{
    let n = chrono::Local::now();
    Timestamp {
        year: chrono::Datelike::year(&n),
        month: chrono::Datelike::month(&n) as u8,
        day: chrono::Datelike::day(&n) as u8,
        hour: chrono::Timelike::hour(&n) as u8,
        minute: chrono::Timelike::minute(&n) as u8,
        second: chrono::Timelike::second(&n) as u8,
        micros: n.timestamp_subsec_micros(),
    }
}

/// The current clock reading, formatted; used as a commit message.
pub fn now_to_string() -> (r: String)
    ensures
        exists|t: Timestamp| t.wf() && r@ == t.spec_format(),
{
    let t = now();
    let r = t.format();
    proof {
        assert(t.wf() && r@ == t.spec_format());
    }
    r
}

} // verus!
