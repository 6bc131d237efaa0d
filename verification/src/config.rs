//! The configuration of the service, and the reading of the sizes and numbers
//! that an operator types in.

use vstd::prelude::*;
use crate::text::{chars_of, decimal_text, push_decimal, same_text};

verus! {

/// The largest file size that a browser can encrypt in one piece: 2 GiB.
pub const WEBCRYPTO_MAX_FILESIZE: u64 = 2_147_483_648;

/// How much of what happens is logged.
#[allow(non_camel_case_types)]
#[derive(Debug, Clone, Copy, PartialEq, Eq, Structural)]
pub enum Level {
    ERROR,
    WARN,
    INFO,
}

/// Global configuration for the entire application.
#[derive(Debug)]
pub struct AppConfiguration {
    pub app_name: String,
    pub interface: String,
    pub proxy_depth: u64,
    pub admin_password_hash: String,
    pub maximum_filesize: u64,
    pub maximum_quota: u64,
    pub maximum_uploads_per_ip: u64,
    pub daily_request_limit_per_ip: u64,
    pub log_level: String,
    pub enable_privacy_policy: bool,
    pub enable_legal_notice: bool,
    pub demo_mode: bool,
}

/// What a check of typed input says.
#[derive(Debug)]
pub enum Validation {
    Valid,
    Invalid(String),
}

/// The level that a configured name stands for: `ERROR` and `WARN` for their
/// own names, `INFO` for every other text.
pub open spec fn level_of(name: Seq<char>) -> Level {
    if name == "ERROR"@ {
        Level::ERROR
    } else if name == "WARN"@ {
        Level::WARN
    } else {
        Level::INFO
    }
}

impl AppConfiguration {
    /// Translate the configured log level to the actual level.
    /// Should that fail the app will simply fall back to INFO.
    pub fn translate_log_level(&self) -> (l: Level)
        ensures
            l == level_of(self.log_level@),
    {
        if same_text(self.log_level.as_str(), "ERROR") {
            Level::ERROR
        } else if same_text(self.log_level.as_str(), "WARN") {
            Level::WARN
        } else {
            Level::INFO
        }
    }
}

/// The least number of seconds that an upload or a download may take.
pub const MIN_FILE_TIMEOUT_SECS: u64 = 120;

/// The room in a request beside the blob, for the other fields: 256 KiB.
pub const FORM_OVERHEAD: u64 = 262_144;

/// The seconds that an upload or a download may take: a minute for each MiB
/// of the largest file, and two minutes at least.
pub open spec fn file_timeout_of(maximum_filesize: u64) -> u64 {
    if maximum_filesize / 17476 > 120 {
        (maximum_filesize / 17476) as u64
    } else {
        120
    }
}

/// The largest body of an upload request: the largest file and the room for
/// the other fields, as far as it can be counted.
pub open spec fn body_limit_of(maximum_filesize: u64) -> u64 {
    if maximum_filesize + 262_144 <= u64::MAX {
        (maximum_filesize + 262_144) as u64
    } else {
        u64::MAX
    }
}

impl AppConfiguration {
    /// The seconds that an upload or a download may take.
    pub fn file_endpoint_timeout(&self) -> (secs: u64)
        ensures
            secs == file_timeout_of(self.maximum_filesize),
            secs >= 120,
    {
        let by_size: u64 = self.maximum_filesize / 17476;
        if by_size > MIN_FILE_TIMEOUT_SECS {
            by_size
        } else {
            MIN_FILE_TIMEOUT_SECS
        }
    }

    /// The largest body of an upload request.
    pub fn upload_body_limit(&self) -> (bytes: u64)
        ensures
            bytes == body_limit_of(self.maximum_filesize),
    {
        self.maximum_filesize.saturating_add(FORM_OVERHEAD)
    }
}

/// Whether `c` is one of the ten decimal digits.
pub open spec fn is_decimal_digit(c: char) -> bool {
    48 <= c as u32 <= 57
}

/// The number that a string of decimal digits denotes; `None` where the
/// string is empty or holds anything but digits.
pub open spec fn digits_value(s: Seq<char>) -> Option<nat>
    decreases s.len(),
{
    if s.len() == 0 || !is_decimal_digit(s.last()) {
        None
    } else if s.len() == 1 {
        Some((s.last() as u32 - 48) as nat)
    } else {
        match digits_value(s.drop_last()) {
            Some(v) => Some(v * 10 + (s.last() as u32 - 48) as nat),
            None => None,
        }
    }
}

/// The number that a text denotes as an unsigned 64-bit number: decimal
/// digits, which a single plus sign may precede, with a value in range.
pub open spec fn number_of(s: Seq<char>) -> Option<u64> {
    let body = if s.len() > 0 && s[0] == '+' {
        s.skip(1)
    } else {
        s
    };
    match digits_value(body) {
        Some(v) => if v <= u64::MAX {
            Some(v as u64)
        } else {
            None
        },
        None => None,
    }
}

/// The factor that a size suffix stands for: binary thousands, millions and
/// billions for `K`, `M` and `G`.
pub open spec fn suffix_factor(c: char) -> Option<nat> {
    if c == 'K' {
        Some(1024)
    } else if c == 'M' {
        Some(1024 * 1024)
    } else if c == 'G' {
        Some(1024 * 1024 * 1024)
    } else {
        None
    }
}

/// The number of bytes that a size text such as `25M` denotes: a number, then
/// one suffix, with a product in range.
pub open spec fn filesize_of(input: Seq<char>) -> Option<u64> {
    if input.len() == 0 {
        None
    } else {
        match (number_of(input.drop_last()), suffix_factor(input.last())) {
            (Some(n), Some(f)) => if n * f <= u64::MAX {
                Some((n * f) as u64)
            } else {
                None
            },
            _ => None,
        }
    }
}

/// A prefix of a string of digits is a string of digits, and denotes no more
/// than the whole.
pub proof fn lemma_digits_prefix(s: Seq<char>, i: int)
    requires
        1 <= i <= s.len(),
        digits_value(s) is Some,
    ensures
        digits_value(s.take(i)) is Some,
        digits_value(s.take(i))->Some_0 <= digits_value(s)->Some_0,
    decreases s.len() - i,
{
    if i == s.len() {
        assert(s.take(i) =~= s);
    } else {
        assert(s.drop_last().take(i) =~= s.take(i));
        if i == s.len() - 1 {
            assert(s.drop_last().take(i) =~= s.drop_last());
        } else {
            lemma_digits_prefix(s.drop_last(), i);
        }
    }
}

/// Reads the digits of `chars` from position `from` on as a number.
fn parse_digits(chars: &Vec<char>, from: usize) -> (r: Option<u64>)
    requires
        from <= chars.len(),
    ensures
        match digits_value(chars@.skip(from as int)) {
            Some(v) => if v <= u64::MAX {
                r == Some(v as u64)
            } else {
                r is None
            },
            None => r is None,
        },
{
    let ghost body = chars@.skip(from as int);
    let n = chars.len();
    if from == n {
        return None;
    }
    let mut acc: u64 = 0;
    let mut i: usize = from;
    while i < n
        invariant
            from <= i <= n,
            n == chars.len(),
            body == chars@.skip(from as int),
            i > from ==> digits_value(body.take(i - from)) == Some(acc as nat),
            i == from ==> acc == 0,
        decreases n - i,
    {
        let c = chars[i];
        let ghost prefix = body.take(i - from + 1);
        proof {
            assert(prefix.last() == c);
            assert(prefix.drop_last() =~= body.take(i - from));
        }
        let code: u32 = c as u32;
        if code < 48 || code > 57 {
            proof {
                assert(digits_value(prefix) is None);
                if digits_value(body) is Some {
                    lemma_digits_prefix(body, i - from + 1);
                }
            }
            return None;
        }
        let d: u64 = (code - 48) as u64;
        let next = match acc.checked_mul(10) {
            Some(m) => m.checked_add(d),
            None => None,
        };
        match next {
            Some(v) => {
                acc = v;
            },
            None => {
                proof {
                    if digits_value(body) is Some {
                        lemma_digits_prefix(body, i - from + 1);
                    }
                }
                return None;
            },
        }
        i += 1;
    }
    proof {
        assert(body.take(n - from) =~= body);
    }
    Some(acc)
}

/// Reads a text as an unsigned 64-bit number.
pub fn parse_number(input: &str) -> (r: Option<u64>)
    ensures
        r == number_of(input@),
{
    let chars = chars_of(input);
    if chars.len() > 0 && chars[0] == '+' {
        parse_digits(&chars, 1)
    } else {
        assert(chars@.skip(0) =~= chars@);
        parse_digits(&chars, 0)
    }
}

/// Translate a filesize string to the actual number of bytes it represents.
///
/// The suffixes 'K', 'M' and 'G' are read as binary suffixes:
///    '25M' ->  25 MiB ->    26_214_400 Bytes
///   '250K' -> 250 KiB ->       256_000 Bytes
///     '5G' ->   5 GiB -> 5_368_709_120 Bytes
pub fn transform_filesize_input(input: &str) -> (r: Option<u64>)
    ensures
        r == filesize_of(input@),
{
    let chars = chars_of(input);
    let n = chars.len();
    if n == 0 {
        return None;
    }
    let suffix = chars[n - 1];
    let factor: u64 = if suffix == 'K' {
        1024
    } else if suffix == 'M' {
        1024 * 1024
    } else if suffix == 'G' {
        1024 * 1024 * 1024
    } else {
        return None;
    };
    let mut number_chars = chars;
    number_chars.pop();
    assert(number_chars@ =~= input@.drop_last());
    let number = if number_chars.len() > 0 && number_chars[0] == '+' {
        parse_digits(&number_chars, 1)
    } else {
        assert(number_chars@.skip(0) =~= number_chars@);
        parse_digits(&number_chars, 0)
    };
    match number {
        Some(v) => v.checked_mul(factor),
        None => None,
    }
}

/// The message for a size that cannot be read.
pub open spec fn filesize_parse_message() -> Seq<char> {
    "Failed to parse filesize. Use values like '100K', '25M' or '5G'."@
}

/// The message for a size above the largest that is accepted.
pub open spec fn filesize_too_large_message() -> Seq<char> {
    "Filesize too large. Choose a value smaller or equal to 2GiB."@
}

impl Validation {
    /// Whether the input was accepted.
    pub open spec fn accepted(self) -> bool {
        self is Valid
    }

    /// The message with which the input was refused.
    pub open spec fn message(self) -> Seq<char> {
        match self {
            Validation::Valid => Seq::empty(),
            Validation::Invalid(m) => m@,
        }
    }
}

/// Checks that the filesize input is valid.
pub fn validate_filesize_input(input: &str) -> (v: Validation)
    ensures
        v.accepted() <==> filesize_of(input@) is Some,
        !v.accepted() ==> v.message() == filesize_parse_message(),
{
    match transform_filesize_input(input) {
        Some(_) => Validation::Valid,
        None => Validation::Invalid(
            "Failed to parse filesize. Use values like '100K', '25M' or '5G'.".to_owned(),
        ),
    }
}

/// Checks that the maximum filesize input is valid.
///
/// This is similar to [validate_filesize_input] but also checks that the given
/// filesize stays at or below the largest size that a browser can encrypt.
pub fn validate_max_filesize_input(input: &str) -> (v: Validation)
    ensures
        v.accepted() <==> filesize_of(input@) is Some && filesize_of(input@)->Some_0
            <= WEBCRYPTO_MAX_FILESIZE,
        filesize_of(input@) is None ==> v.message() == filesize_parse_message(),
        filesize_of(input@) is Some && !v.accepted() ==> v.message()
            == filesize_too_large_message(),
{
    match transform_filesize_input(input) {
        Some(v) => {
            if v <= WEBCRYPTO_MAX_FILESIZE {
                Validation::Valid
            } else {
                Validation::Invalid(
                    "Filesize too large. Choose a value smaller or equal to 2GiB.".to_owned(),
                )
            }
        },
        None => Validation::Invalid(
            "Failed to parse filesize. Use values like '100K', '25M' or '5G'.".to_owned(),
        ),
    }
}

/// Checks that the input is a number.
pub fn validate_number_input(input: &str) -> (v: Validation)
    ensures
        v.accepted() <==> number_of(input@) is Some,
        !v.accepted() ==> v.message() == "not a valid number"@,
{
    match parse_number(input) {
        Some(_) => Validation::Valid,
        None => Validation::Invalid("not a valid number".to_owned()),
    }
}

/// The number of bytes that a size text denotes, zero where it denotes none.
pub open spec fn filesize_or_zero(input: Seq<char>) -> nat {
    match filesize_of(input) {
        Some(n) => n as nat,
        None => 0,
    }
}

/// Formats filesize input such as '25M' as '25M = 26214400 Bytes'.
pub fn format_filesize_input(input: &str) -> (s: String)
    ensures
        s@ == input@ + " = "@ + decimal_text(filesize_or_zero(input@)) + " Bytes"@,
{
    let bytes: u64 = match transform_filesize_input(input) {
        Some(n) => n,
        None => 0,
    };
    let mut out = input.to_owned();
    out.append(" = ");
    push_decimal(&mut out, bytes);
    out.append(" Bytes");
    out
}

} // verus!
