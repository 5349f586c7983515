//! What is checked before a session starts: the target's scheme and the
//! size that the server declares for the resource.

use vstd::prelude::*;
use vstd::string::*;

verus! {

/// Why a session could not start.
#[derive(Clone, Copy, Debug, PartialEq, Eq)]
pub enum StartupError {
    /// The target begins with neither `http://` nor `https://`.
    InvalidTargetError,
    /// The server declared no usable size for the resource.
    SizeUnavailableError,
}

impl StartupError {
    /// A short message for the operator.
    pub fn message(&self) -> (text: &'static str)
        ensures
            text@ == (match *self {
                StartupError::InvalidTargetError => "Invalid URL"@,
                StartupError::SizeUnavailableError => "Content-Length not provided"@,
            }),
    {
        match self {
            StartupError::InvalidTargetError => "Invalid URL",
            StartupError::SizeUnavailableError => "Content-Length not provided",
        }
    }
}

/// The characters of `http://`.
pub open spec fn http_prefix() -> Seq<char> {
    seq!['h', 't', 't', 'p', ':', '/', '/']
}

/// The characters of `https://`.
pub open spec fn https_prefix() -> Seq<char> {
    seq!['h', 't', 't', 'p', 's', ':', '/', '/']
}

/// A target is valid when it begins with one of the two schemes. The
/// comparison is exact: upper-case letters do not match.
pub open spec fn is_valid_target(target: Seq<char>) -> bool {
    http_prefix().is_prefix_of(target) || https_prefix().is_prefix_of(target)
}

/// Whether `text` begins with `prefix`, character by character.
fn begins_with(text: &str, prefix: &str) -> (found: bool)
    ensures
        found == prefix@.is_prefix_of(text@),
{
    let wanted: usize = prefix.unicode_len();
    let given: usize = text.unicode_len();
    if given < wanted {
        return false;
    }
    let mut i: usize = 0;
    while i < wanted
        invariant
            i <= wanted,
            wanted == prefix@.len(),
            given == text@.len(),
            wanted <= given,
            forall|j: int| 0 <= j < i ==> text@[j] == prefix@[j],
        decreases wanted - i,
    {
        if text.get_char(i) != prefix.get_char(i) {
            assert(text@.subrange(0, wanted as int)[i as int] != prefix@[i as int]);
            return false;
        }
        i = i + 1;
    }
    assert(prefix@ =~= text@.subrange(0, wanted as int));
    true
}

/// Accepts a target that begins with `http://` or `https://` and rejects
/// every other with `InvalidTargetError`.
pub fn validate_target(target: &str) -> (checked: Result<(), StartupError>)
    ensures
        checked is Ok <==> is_valid_target(target@),
        checked is Err ==> checked == Err::<(), StartupError>(StartupError::InvalidTargetError),
{
    proof {
        reveal_strlit("http://");
        reveal_strlit("https://");
        assert("http://"@ =~= http_prefix());
        assert("https://"@ =~= https_prefix());
    }
    if begins_with(target, "http://") || begins_with(target, "https://") {
        Ok(())
    } else {
        Err(StartupError::InvalidTargetError)
    }
}

/// Whether `c` is one of the ten decimal digits.
pub open spec fn is_digit(c: char) -> bool {
    '0' <= c <= '9'
}

/// The value of a decimal digit.
pub open spec fn digit_value(c: char) -> nat {
    (c as nat - '0' as nat) as nat
}

/// The number that a sequence of decimal digits writes, most significant
/// digit first.
pub open spec fn decimal_value(digits: Seq<char>) -> nat
    decreases digits.len(),
{
    if digits.len() == 0 {
        0
    } else {
        decimal_value(digits.drop_last()) * 10 + digit_value(digits.last())
    }
}

/// The digits of a declared size: the text without one leading plus sign.
pub open spec fn digits_of(text: Seq<char>) -> Seq<char> {
    if text.len() > 0 && text[0] == '+' {
        text.drop_first()
    } else {
        text
    }
}

/// A declared size is well formed when, after an optional plus sign, it
/// holds at least one character and decimal digits only.
pub open spec fn is_decimal(text: Seq<char>) -> bool {
    &&& digits_of(text).len() > 0
    &&& forall|i: int| 0 <= i < digits_of(text).len() ==> is_digit(#[trigger] digits_of(text)[i])
}

/// The size that `text` declares, if it is well formed and fits `u64`.
pub open spec fn parsed_length(text: Seq<char>) -> Option<u64> {
    if is_decimal(text) && decimal_value(digits_of(text)) <= u64::MAX {
        Some(decimal_value(digits_of(text)) as u64)
    } else {
        None
    }
}

/// The size of a probe: what its header declares, where there is one.
pub open spec fn probed_size(header: Option<Seq<char>>) -> Option<u64> {
    match header {
        Some(text) => parsed_length(text),
        None => None,
    }
}

spec fn is_ascii_char(c: char) -> bool {
    '\0' <= c <= '\u{7f}'
}

/// A longer sequence of digits writes a number at least as large as any of
/// its beginnings.
proof fn lemma_decimal_value_grows(digits: Seq<char>, shorter: int)
    requires
        0 <= shorter <= digits.len(),
    ensures
        decimal_value(digits.take(shorter)) <= decimal_value(digits),
    decreases digits.len(),
{
    if shorter == digits.len() {
        assert(digits.take(shorter) =~= digits);
    } else {
        lemma_decimal_value_grows(digits.drop_last(), shorter);
        assert(digits.drop_last().take(shorter) =~= digits.take(shorter));
    }
}

/// Reads the size that a `Content-Length` value declares: an optional plus
/// sign, then decimal digits that write a number within `u64`.
pub fn parse_content_length(text: &str) -> (size: Option<u64>)
    ensures
        size == parsed_length(text@),
{
    broadcast use vstd::string::is_ascii_spec_bytes;

    if !text.is_ascii() {
        proof {
            let at = choose|i: int| 0 <= i < text@.len() && !is_ascii_char(#[trigger] text@[i]);
            if is_decimal(text@) {
                if text@[0] == '+' {
                    assert(at > 0);
                    assert(digits_of(text@)[at - 1] == text@[at]);
                } else {
                    assert(digits_of(text@)[at] == text@[at]);
                }
            }
        }
        return None;
    }
    let bytes = text.as_bytes();
    let n: usize = bytes.len();
    assert(n == text@.len());
    assert(forall|i: int| 0 <= i < n ==> bytes@[i] == #[trigger] text@[i] as u8);
    let start: usize = if n > 0 && bytes[0] == 43 {
        1
    } else {
        0
    };
    let ghost digits = digits_of(text@);
    assert(digits =~= text@.subrange(start as int, n as int));
    if start == n {
        return None;
    }
    let mut value: u64 = 0;
    let mut i: usize = start;
    while i < n
        invariant
            start <= i <= n,
            n == text@.len(),
            n == bytes@.len(),
            vstd::utf8::is_ascii_chars(text@),
            forall|k: int| 0 <= k < n ==> bytes@[k] == #[trigger] text@[k] as u8,
            digits == text@.subrange(start as int, n as int),
            digits == digits_of(text@),
            forall|k: int| 0 <= k < i - start ==> is_digit(#[trigger] digits[k]),
            value == decimal_value(digits.take(i - start)),
        decreases n - i,
    {
        let b: u8 = bytes[i];
        let ghost c = text@[i as int];
        assert(c == digits[i - start]);
        assert(b == c as u8);
        assert('\0' <= c <= '\u{7f}');
        if b < 48 || b > 57 {
            assert(!is_digit(c));
            return None;
        }
        assert(is_digit(c));
        let digit: u64 = (b - 48) as u64;
        assert(digit == digit_value(c));
        proof {
            assert(digits.take(i - start + 1).drop_last() =~= digits.take(i - start));
            assert(digits.take(i - start + 1).last() == c);
            lemma_decimal_value_grows(digits, i - start + 1);
            assert(decimal_value(digits.take(i - start + 1)) == value * 10 + digit);
        }
        let scaled: u64 = match value.checked_mul(10) {
            Some(scaled) => scaled,
            None => {
                return None;
            },
        };
        value = match scaled.checked_add(digit) {
            Some(sum) => sum,
            None => {
                return None;
            },
        };
        i = i + 1;
    }
    assert(digits.take(n - start) =~= digits);
    Some(value)
}

/// Turns the answer of the metadata probe into the size of the resource.
/// A probe without a size header, or with one that declares no size, ends
/// the session with `SizeUnavailableError`.
pub fn probe_size(header: Option<&str>) -> (size: Result<u64, StartupError>)
    ensures
        size == (match header {
            Some(text) => match parsed_length(text@) {
                Some(n) => Ok::<u64, StartupError>(n),
                None => Err::<u64, StartupError>(StartupError::SizeUnavailableError),
            },
            None => Err::<u64, StartupError>(StartupError::SizeUnavailableError),
        }),
{
    match header {
        Some(text) => match parse_content_length(text) {
            Some(n) => Ok(n),
            None => Err(StartupError::SizeUnavailableError),
        },
        None => Err(StartupError::SizeUnavailableError),
    }
}

} // verus!
