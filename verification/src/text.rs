//! Text building blocks of the procedure: decimal rendering of the epoch
//! timestamp, composition of the emergency branch name, and normalization of
//! output captured from the external tool.

use vstd::prelude::*;
use vstd::string::StrSliceExecFns;
use vstd::string::StringExecFns;
use vstd::utf8::valid_utf8;
use vstd::utf8::decode_utf8;
use crate::errors::Error;

verus! {

/// The character for a single decimal digit.
pub open spec fn digit_char(d: nat) -> char {
    if d == 0 {
        '0'
    } else if d == 1 {
        '1'
    } else if d == 2 {
        '2'
    } else if d == 3 {
        '3'
    } else if d == 4 {
        '4'
    } else if d == 5 {
        '5'
    } else if d == 6 {
        '6'
    } else if d == 7 {
        '7'
    } else if d == 8 {
        '8'
    } else {
        '9'
    }
}

/// The decimal numeral of `n`, most significant digit first, with no sign,
/// no padding and no separators.
pub open spec fn dec_chars(n: nat) -> Seq<char>
    decreases n,
{
    if n < 10 {
        seq![digit_char(n)]
    } else {
        dec_chars(n / 10).push(digit_char(n % 10))
    }
}

fn digit_str(d: u64) -> (r: &'static str)
    requires
        d < 10,
    ensures
        r@ == seq![digit_char(d as nat)],
{
    proof {
        reveal_strlit("0");
        reveal_strlit("1");
        reveal_strlit("2");
        reveal_strlit("3");
        reveal_strlit("4");
        reveal_strlit("5");
        reveal_strlit("6");
        reveal_strlit("7");
        reveal_strlit("8");
        reveal_strlit("9");
    }
    let s: &'static str = if d == 0 {
        "0"
    } else if d == 1 {
        "1"
    } else if d == 2 {
        "2"
    } else if d == 3 {
        "3"
    } else if d == 4 {
        "4"
    } else if d == 5 {
        "5"
    } else if d == 6 {
        "6"
    } else if d == 7 {
        "7"
    } else if d == 8 {
        "8"
    } else {
        "9"
    };
    proof {
        assert(s@ =~= seq![digit_char(d as nat)]);
    }
    s
}

/// Renders `n` as its decimal numeral.
pub fn u64_to_dec_string(n: u64) -> (r: String)
    ensures
        r@ == dec_chars(n as nat),
    decreases n,
{
    if n < 10 {
        String::from_str(digit_str(n))
    } else {
        let prefix = u64_to_dec_string(n / 10);
        let r = prefix.concat(digit_str(n % 10));
        proof {
            assert(r@ =~= dec_chars(n as nat));
        }
        r
    }
}

/// The emergency branch name: `earthquake/{branch}-{email}-{epoch}`, with no
/// extra separators; an empty branch component is embedded as-is.
pub open spec fn branch_name_chars(b: Seq<char>, e: Seq<char>, t: u64) -> Seq<char> {
    "earthquake/"@ + b + "-"@ + e + "-"@ + dec_chars(t as nat)
}

/// Composes the branch name used for both the checkout and the push step.
pub fn build_branch_name(current_branch: &String, user_email: &String, epoch_secs: u64) -> (r:
    String)
    ensures
        r@ == branch_name_chars(current_branch@, user_email@, epoch_secs),
{
    let mut r = String::from_str("earthquake/");
    r.append(current_branch.as_str());
    r.append("-");
    r.append(user_email.as_str());
    r.append("-");
    let num = u64_to_dec_string(epoch_secs);
    r.append(num.as_str());
    proof {
        assert(r@ =~= branch_name_chars(current_branch@, user_email@, epoch_secs));
    }
    r
}

/// Captured text with exactly one trailing line terminator removed: a final
/// `'\n'`, together with a `'\r'` immediately before it if there is one.
/// Nothing else is trimmed.
pub open spec fn trim_line_terminator(s: Seq<char>) -> Seq<char> {
    if s.len() >= 2 && s[s.len() - 1] == '\n' && s[s.len() - 2] == '\r' {
        s.take(s.len() - 2)
    } else if s.len() >= 1 && s[s.len() - 1] == '\n' {
        s.take(s.len() - 1)
    } else {
        s
    }
}

/// Strips exactly one trailing line terminator from `s`.
pub fn trim_line_ending(s: &String) -> (r: String)
    ensures
        r@ == trim_line_terminator(s@),
{
    let sl = s.as_str();
    let n = sl.unicode_len();
    if n >= 2 && sl.get_char(n - 1) == '\n' && sl.get_char(n - 2) == '\r' {
        String::from_str(sl.substring_char(0, n - 2))
    } else if n >= 1 && sl.get_char(n - 1) == '\n' {
        String::from_str(sl.substring_char(0, n - 1))
    } else {
        String::from_str(sl)
    }
}

/// Relies on `String::from_utf8`: it succeeds exactly on valid UTF-8 input
/// and returns the decoded characters of that input.
#[verifier::external_body]
fn string_from_utf8(bytes: Vec<u8>) -> (r: Result<String, Error>)
    ensures
        r matches Ok(s) ==> valid_utf8(bytes@) && s@ == decode_utf8(bytes@),
        r matches Err(e) ==> !valid_utf8(bytes@) && e == Error::Encoding,
{
    match String::from_utf8(bytes) {
        Ok(s) => Ok(s),
        Err(_) => Err(Error::Encoding),
    }
}

/// Normalizes the bytes captured from the external tool's standard output:
/// decodes them as UTF-8 (failure is an [`Error::Encoding`], never a silent
/// substitution), then strips exactly one trailing line terminator.
pub fn read_git_info(stdout: Vec<u8>) -> (r: Result<String, Error>)
    ensures
        valid_utf8(stdout@) ==> (r matches Ok(s) && s@ == trim_line_terminator(
            decode_utf8(stdout@),
        )),
        !valid_utf8(stdout@) ==> r == Result::<String, Error>::Err(Error::Encoding),
{
    match string_from_utf8(stdout) {
        Ok(s) => Ok(trim_line_ending(&s)),
        Err(e) => Err(e),
    }
}

} // verus!
