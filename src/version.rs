//! Turning a Node.js version constraint into a Nix package name.
use vstd::prelude::*;

use crate::text::{chars_of, digit_value, is_ascii_digit};

verus! {

/// Runtime package used when no hint names a supported major version.
pub const DEFAULT_NODE_PKG_NAME: &'static str = "nodejs-16_x";

/// Digit values are kept exactly below this bound; larger values are held at it.
const MAJOR_CAP: u32 = 1000;

pub open spec fn default_pkg_name() -> Seq<char> {
    "nodejs-16_x"@
}

/// The major versions that have a Nix package of their own.
pub open spec fn is_supported_major(n: nat) -> bool {
    n == 14 || n == 16 || n == 18
}

/// End (exclusive) of the run of ASCII digits that starts at `i`.
pub open spec fn digit_run_end(s: Seq<char>, i: int) -> int
    decreases s.len() - i,
{
    if 0 <= i < s.len() && is_ascii_digit(s[i]) {
        digit_run_end(s, i + 1)
    } else {
        i
    }
}

/// The number written by a sequence of decimal digits.
pub open spec fn digits_value(d: Seq<char>) -> nat
    decreases d.len(),
{
    if d.len() == 0 {
        0
    } else {
        digits_value(d.drop_last()) * 10 + digit_value(d.last())
    }
}

/// The number that `s` starts with, if it starts with a digit.
pub open spec fn leading_number(s: Seq<char>) -> Option<nat> {
    let e = digit_run_end(s, 0);
    if e > 0 {
        Some(digits_value(s.subrange(0, e)))
    } else {
        None
    }
}

/// The lower bound of a range written `>=<number>...`.
pub open spec fn range_lower_bound(s: Seq<char>) -> Option<nat> {
    let e = digit_run_end(s, 2);
    if s.len() >= 2 && s[0] == '>' && s[1] == '=' && e > 2 {
        Some(digits_value(s.subrange(2, e)))
    } else {
        None
    }
}

/// The major version a constraint asks for: the leading number
/// (`18`, `18.x`, `14.X.x`, `18.4.2`), else the lower bound of a `>=` range.
pub open spec fn constraint_major(s: Seq<char>) -> Option<nat> {
    match leading_number(s) {
        Some(n) => Some(n),
        None => range_lower_bound(s),
    }
}

pub open spec fn digit_text(d: nat) -> Seq<char> {
    "0123456789"@.subrange(d as int, d as int + 1)
}

/// Decimal notation of `n`.
pub open spec fn decimal(n: nat) -> Seq<char>
    decreases n,
{
    if n < 10 {
        digit_text(n)
    } else {
        decimal(n / 10) + digit_text(n % 10)
    }
}

pub open spec fn versioned_pkg_name(n: nat) -> Seq<char> {
    "nodejs-"@ + decimal(n) + "_x"@
}

/// Package for a major version: its own when supported, else the default.
pub open spec fn pkg_name_for_major(n: nat) -> Seq<char> {
    if is_supported_major(n) {
        versioned_pkg_name(n)
    } else {
        default_pkg_name()
    }
}

/// Package for a version constraint; `*` and unreadable constraints give the default.
pub open spec fn pkg_name_for_constraint(s: Seq<char>) -> Seq<char> {
    if s == "*"@ {
        default_pkg_name()
    } else {
        match constraint_major(s) {
            Some(n) => pkg_name_for_major(n),
            None => default_pkg_name(),
        }
    }
}

spec fn capped(n: nat) -> nat {
    if n < MAJOR_CAP as nat {
        n
    } else {
        MAJOR_CAP as nat
    }
}

proof fn lemma_capped_step(x: nat, d: nat)
    requires
        d < 10,
    ensures
        capped(capped(x) * 10 + d) == capped(x * 10 + d),
{
}

/// Scans the digits starting at `start`; returns where they end and their
/// value, held at `MAJOR_CAP`.
fn scan_digits(cs: &Vec<char>, start: usize) -> (res: (usize, u32))
    requires
        start <= cs@.len(),
    ensures
        res.0 as int == digit_run_end(cs@, start as int),
        res.1 as nat == capped(digits_value(cs@.subrange(start as int, res.0 as int))),
{
    let mut i = start;
    let mut v: u32 = 0;
    assert(cs@.subrange(start as int, start as int) =~= Seq::<char>::empty());
    while i < cs.len() && '0' <= cs[i] && cs[i] <= '9'
        invariant
            start <= i <= cs@.len(),
            digit_run_end(cs@, start as int) == digit_run_end(cs@, i as int),
            v as nat == capped(digits_value(cs@.subrange(start as int, i as int))),
            v <= MAJOR_CAP,
        decreases cs@.len() - i,
    {
        let ghost prev = cs@.subrange(start as int, i as int);
        let d = (cs[i] as u32) - ('0' as u32);
        proof {
            let next = cs@.subrange(start as int, i as int + 1);
            assert(next.drop_last() =~= prev);
            assert(next.last() == cs@[i as int]);
            lemma_capped_step(digits_value(prev), d as nat);
        }
        let w = v * 10 + d;
        v = if w < MAJOR_CAP {
            w
        } else {
            MAJOR_CAP
        };
        i = i + 1;
    }
    (i, v)
}

/// Decimal notation of `n`.
fn decimal_string(n: u32) -> (r: String)
    ensures
        r@ == decimal(n as nat),
    decreases n,
{
    let digits = "0123456789";
    proof {
        reveal_strlit("0123456789");
    }
    if n < 10 {
        String::from_str(digits.substring_char(n as usize, n as usize + 1))
    } else {
        let mut r = decimal_string(n / 10);
        let d = (n % 10) as usize;
        r.append(digits.substring_char(d, d + 1));
        r
    }
}

/// Nix package name for a major version of Node.js.
pub fn version_number_to_pkg(version: u32) -> (r: String)
    ensures
        r@ == pkg_name_for_major(version as nat),
{
    if version == 14 || version == 16 || version == 18 {
        let mut r = String::from_str("nodejs-");
        let digits = decimal_string(version);
        r.append(digits.as_str());
        r.append("_x");
        r
    } else {
        String::from_str("nodejs-16_x")
    }
}

/// Nix package name for a version constraint such as `18.x`, `14.8.2`,
/// `>=14.10.3 <16` or `*`.
pub fn pkg_for_constraint(constraint: &str) -> (r: String)
    ensures
        r@ == pkg_name_for_constraint(constraint@),
{
    let cs = chars_of(constraint);
    proof {
        reveal_strlit("*");
    }
    if cs.len() == 1 && cs[0] == '*' {
        assert(constraint@ =~= "*"@);
        return String::from_str("nodejs-16_x");
    }
    assert(constraint@ != "*"@);
    let (end, major) = scan_digits(&cs, 0);
    if end > 0 {
        return version_number_to_pkg(major);
    }
    if cs.len() >= 2 && cs[0] == '>' && cs[1] == '=' {
        let (end2, lower) = scan_digits(&cs, 2);
        if end2 > 2 {
            return version_number_to_pkg(lower);
        }
    }
    String::from_str("nodejs-16_x")
}

} // verus!
