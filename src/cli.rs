//! The command line: `<program> -worker_count <positive integer>`.
use vstd::prelude::*;
use vstd::utf8::is_ascii_chars;

verus! {

/// The text shown when the command line is refused.
pub open spec fn usage_text() -> Seq<char> {
    "usage:\nhyper-bench -worker_count <int>\n    Use worker_count threads on runtime. Given value must be a positive integer."@
}

/// The usage message that the program prints before it stops on a refused
/// command line.
pub fn help() -> (r: &'static str)
    ensures
        r@ == usage_text(),
{
    "usage:\nhyper-bench -worker_count <int>\n    Use worker_count threads on runtime. Given value must be a positive integer."
}

/// A decimal digit, `0` to `9`.
pub open spec fn is_digit(c: char) -> bool {
    '0' <= c && c <= '9'
}

/// Every character of `s` is a decimal digit.
pub open spec fn all_digits(s: Seq<char>) -> bool {
    forall|i: int| 0 <= i < s.len() ==> is_digit(#[trigger] s[i])
}

/// The value of a digit character.
pub open spec fn digit_value(c: char) -> nat {
    ((c as u32) - ('0' as u32)) as nat
}

/// The number that a string of decimal digits denotes, most significant first.
pub open spec fn digits_value(s: Seq<char>) -> nat
    decreases s.len(),
{
    if s.len() == 0 {
        0
    } else {
        digits_value(s.drop_last()) * 10 + digit_value(s.last())
    }
}

/// The digits of an unsigned literal: a leading `+` is dropped.
pub open spec fn unsigned_digits(s: Seq<char>) -> Seq<char> {
    if s.len() > 0 && s[0] == '+' {
        s.drop_first()
    } else {
        s
    }
}

/// What `s` denotes as an unsigned decimal literal (an optional `+`, then
/// one or more digits), or `None` where it is not one.
pub open spec fn decimal_value(s: Seq<char>) -> Option<nat> {
    let d = unsigned_digits(s);
    if d.len() > 0 && all_digits(d) {
        Some(digits_value(d))
    } else {
        None
    }
}

/// A prefix of a digit string never denotes more than the whole string.
proof fn lemma_prefix_value_le(s: Seq<char>, j: int)
    requires
        all_digits(s),
        0 <= j <= s.len(),
    ensures
        digits_value(s.subrange(0, j)) <= digits_value(s),
    decreases s.len(),
{
    if j < s.len() {
        let t = s.drop_last();
        assert(all_digits(t)) by {
            assert forall|i: int| 0 <= i < t.len() implies is_digit(#[trigger] t[i]) by {
                assert(t[i] == s[i]);
            }
        }
        lemma_prefix_value_le(t, j);
        assert(t.subrange(0, j) =~= s.subrange(0, j));
    } else {
        assert(s.subrange(0, j) =~= s);
    }
}

/// Reads an unsigned decimal integer the way `usize`'s `FromStr` does: an
/// optional `+`, then at least one digit, with a value that fits in `usize`.
pub fn parse_decimal(s: &str) -> (r: Option<usize>)
    ensures
        match r {
            Some(n) => decimal_value(s@) == Some(n as nat),
            None => decimal_value(s@) is None || decimal_value(s@)->0 > usize::MAX,
        },
{
    let ghost d = unsigned_digits(s@);
    if !s.is_ascii() {
        proof {
            let k = choose|k: int| 0 <= k < s@.len() && !('\0' <= s@[k] && s@[k] <= '\u{7f}');
            if s@.len() > 0 && s@[0] == '+' {
                assert(d[k - 1] == s@[k]);
            } else {
                assert(d[k] == s@[k]);
            }
        }
        return None;
    }
    let b = s.as_bytes();
    proof {
        vstd::utf8::is_ascii_chars_encode_utf8(s@);
    }
    let n = b.len();
    let mut i: usize = 0;
    if n > 0 && b[0] == 43u8 {
        i = 1;
    }
    if i == n {
        return None;
    }
    let start = i;
    proof {
        assert(d =~= s@.subrange(start as int, n as int));
        assert(d.subrange(0, 0) =~= Seq::<char>::empty());
    }
    let mut acc: usize = 0;
    while i < n
        invariant
            start <= i <= n,
            n == s@.len(),
            n == b@.len(),
            is_ascii_chars(s@),
            forall|k: int| 0 <= k < n ==> #[trigger] b@[k] == s@[k] as u8,
            d == s@.subrange(start as int, n as int),
            d == unsigned_digits(s@),
            d.len() > 0,
            all_digits(d.subrange(0, i - start)),
            acc == digits_value(d.subrange(0, i - start)),
        decreases n - i,
    {
        let c = b[i];
        let ghost ch = s@[i as int];
        assert(d[i - start] == ch);
        assert((ch as u32) < 128);
        assert(c as u32 == ch as u32);
        if c < 48u8 || c > 57u8 {
            assert(!is_digit(d[i - start]));
            return None;
        }
        let ghost pre = d.subrange(0, i - start);
        let ghost next = d.subrange(0, i + 1 - start);
        assert(next.drop_last() =~= pre);
        assert(all_digits(next)) by {
            assert forall|k: int| 0 <= k < next.len() implies is_digit(#[trigger] next[k]) by {
                if k < pre.len() {
                    assert(next[k] == pre[k]);
                }
            }
        }
        let digit = (c - 48u8) as usize;
        assert(digits_value(next) == acc * 10 + digit);
        let scaled = acc.checked_mul(10);
        let sum = match scaled {
            Some(m) => m.checked_add(digit),
            None => None,
        };
        match sum {
            Some(v) => {
                acc = v;
            },
            None => {
                proof {
                    assert(acc * 10 + digit > usize::MAX);
                    if all_digits(d) {
                        lemma_prefix_value_le(d, i + 1 - start);
                    }
                }
                return None;
            },
        }
        i = i + 1;
    }
    assert(d.subrange(0, n - start) =~= d);
    Some(acc)
}

/// Why a command line was refused.
#[derive(Debug, Clone, Copy, PartialEq, Eq)]
pub enum UsageError {
    /// Not exactly two arguments after the program name.
    ArgumentCount,
    /// The value is not an unsigned integer that fits in `usize`.
    NotANumber,
    /// The option is not `-worker_count`.
    UnknownOption,
    /// The value is zero: the runtime needs at least one worker.
    NoWorkers,
}

/// The one option the program knows.
pub open spec fn worker_flag() -> Seq<char> {
    "-worker_count"@
}

/// `s` is an unsigned decimal literal whose value fits in `usize`.
pub open spec fn fits_usize(s: Seq<char>) -> bool {
    decimal_value(s) is Some && decimal_value(s)->0 <= usize::MAX
}

/// The command line as text, program name first.
pub open spec fn arg_texts(args: Seq<String>) -> Seq<Seq<char>> {
    args.map_values(|a: String| a@)
}

/// The worker count that a command line (program name first) asks for, or
/// the first reason to refuse it: the argument count, then the value, then
/// the option's name, then a count of zero.
pub open spec fn worker_count_of(args: Seq<Seq<char>>) -> Result<nat, UsageError> {
    if args.len() != 3 {
        Err(UsageError::ArgumentCount)
    } else if !fits_usize(args[2]) {
        Err(UsageError::NotANumber)
    } else if args[1] != worker_flag() {
        Err(UsageError::UnknownOption)
    } else if decimal_value(args[2])->0 == 0 {
        Err(UsageError::NoWorkers)
    } else {
        Ok(decimal_value(args[2])->0)
    }
}

/// Reads the worker count from the command line `args`, program name
/// first: `<program> -worker_count <positive integer>`.
pub fn parse_worker_count(args: &Vec<String>) -> (r: Result<usize, UsageError>)
    ensures
        worker_count_of(arg_texts(args@)) == match r {
            Ok(n) => Ok::<nat, UsageError>(n as nat),
            Err(e) => Err(e),
        },
{
    let ghost texts = arg_texts(args@);
    if args.len() != 3 {
        return Err(UsageError::ArgumentCount);
    }
    assert(texts[1] == args@[1]@ && texts[2] == args@[2]@);
    let n = match parse_decimal(args[2].as_str()) {
        Some(n) => n,
        None => {
            return Err(UsageError::NotANumber);
        },
    };
    let flag = String::from_str("-worker_count");
    if args[1] != flag {
        return Err(UsageError::UnknownOption);
    }
    if n == 0 {
        return Err(UsageError::NoWorkers);
    }
    Ok(n)
}

/// A command line is accepted exactly when it is
/// `<program> -worker_count <v>` with `v` a decimal literal for a positive
/// number that fits in `usize`; the accepted count is that number, so a
/// count of zero, a value that is not a number, another option or another
/// argument count never starts the server.
pub proof fn lemma_accepted_command_line(args: Seq<Seq<char>>)
    ensures
        worker_count_of(args) is Ok <==> {
            &&& args.len() == 3
            &&& args[1] == worker_flag()
            &&& decimal_value(args[2]) matches Some(v) && 0 < v <= usize::MAX
        },
        worker_count_of(args) matches Ok(n) ==> n > 0 && Some(n) == decimal_value(args[2]),
{
}

} // verus!
