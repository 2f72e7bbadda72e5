//! Process configuration: the listening port, the provider redirect URL and
//! the client credentials, resolved from optional raw values with defaults
//! for the first two and a hard error for the credentials.

use vstd::prelude::*;
use vstd::string::StrSliceExecFns;

verus! {

/// Port used when no raw port value is given or the given one does not parse.
pub const DEFAULT_PORT: i32 = 3000;

/// Redirect URL used when none is given.
pub const DEFAULT_REDIRECT_URL: &'static str = "http://localhost:3000/authed";

/// A failure that makes the service unable to start.
#[derive(Clone, Copy, Debug, PartialEq, Eq, Structural)]
pub enum ConfigError {
    /// The client id is absent or empty.
    MissingClientId,
    /// The client secret is absent or empty.
    MissingClientSecret,
    /// The redirect URL does not parse as a URL.
    InvalidRedirectUrl,
}

/// An ASCII decimal digit.
pub open spec fn is_dec_digit(c: char) -> bool {
    48 <= c as int <= 57
}

/// Numeric value of an ASCII decimal digit.
pub open spec fn digit_value(c: char) -> int {
    c as int - 48
}

pub open spec fn all_dec_digits(s: Seq<char>) -> bool {
    forall|i: int| 0 <= i < s.len() ==> is_dec_digit(#[trigger] s[i])
}

/// Value of a digit string read in base ten.
pub open spec fn digits_value(s: Seq<char>) -> int
    decreases s.len(),
{
    if s.len() == 0 {
        0
    } else {
        10 * digits_value(s.drop_last()) + digit_value(s.last())
    }
}

/// What parsing a string as a decimal `i32` yields: an optional sign followed
/// by one or more digits, whose signed value must fit in `i32`.  Anything
/// else yields nothing.
pub open spec fn spec_parse_i32(s: Seq<char>) -> Option<int> {
    let digits = if s.len() > 0 && (s[0] == '-' || s[0] == '+') {
        s.drop_first()
    } else {
        s
    };
    if digits.len() == 0 || !all_dec_digits(digits) {
        None
    } else {
        let value = if s.len() > 0 && s[0] == '-' {
            -digits_value(digits)
        } else {
            digits_value(digits)
        };
        if i32::MIN <= value <= i32::MAX {
            Some(value)
        } else {
            None
        }
    }
}

pub proof fn lemma_digits_value_nonneg(s: Seq<char>)
    requires
        all_dec_digits(s),
    ensures
        digits_value(s) >= 0,
    decreases s.len(),
{
    if s.len() > 0 {
        assert(all_dec_digits(s.drop_last()));
        lemma_digits_value_nonneg(s.drop_last());
    }
}

/// Reading more digits never shrinks the value: the value of a prefix is a
/// lower bound on the value of the whole digit string.
pub proof fn lemma_digits_value_prefix_le(s: Seq<char>, j: int)
    requires
        all_dec_digits(s),
        0 <= j <= s.len(),
    ensures
        digits_value(s.take(j)) <= digits_value(s),
    decreases s.len() - j,
{
    if j < s.len() {
        assert(s.take(j + 1).drop_last() =~= s.take(j));
        assert(s.take(j + 1).last() == s[j]);
        assert(all_dec_digits(s.take(j)));
        lemma_digits_value_nonneg(s.take(j));
        assert(digits_value(s.take(j)) <= digits_value(s.take(j + 1)));
        lemma_digits_value_prefix_le(s, j + 1);
    } else {
        assert(s.take(j) =~= s);
    }
}

/// Parse a decimal `i32` exactly as the standard library does: an optional
/// leading `+` or `-`, then one or more ASCII digits, rejecting anything out
/// of range.
pub fn parse_i32(s: &str) -> (r: Option<i32>)
    ensures
        r is Some <==> spec_parse_i32(s@) is Some,
        r matches Some(v) ==> spec_parse_i32(s@) == Some(v as int),
{
    let n = s.unicode_len();
    if n == 0 {
        return None;
    }
    let first = s.get_char(0);
    let negative = first == '-';
    let start: usize = if first == '-' || first == '+' {
        1
    } else {
        0
    };
    if start == n {
        return None;
    }
    let ghost digits: Seq<char> = if start == 1 {
        s@.drop_first()
    } else {
        s@
    };
    let mut acc: u64 = 0;
    let mut i: usize = start;
    while i < n
        invariant
            start <= i <= n,
            n == s@.len(),
            start <= 1,
            start == 1 <==> (s@[0] == '-' || s@[0] == '+'),
            start == 1 ==> digits == s@.drop_first(),
            start == 0 ==> digits == s@,
            digits.len() == n - start,
            all_dec_digits(digits.take(i - start)),
            acc == digits_value(digits.take(i - start)),
            acc <= 0x8000_0000,
            negative == (s@[0] == '-'),
        decreases n - i,
    {
        let c = s.get_char(i);
        let code: u32 = c as u32;
        proof {
            assert(digits[i - start] == s@[i as int]);
        }
        if code < 48 || 57 < code {
            proof {
                assert(!is_dec_digit(digits[i - start]));
            }
            return None;
        }
        let d: u32 = code - 48;
        acc = acc * 10 + d as u64;
        proof {
            assert(digits.take(i - start + 1).drop_last() =~= digits.take(i - start));
            assert(digits.take(i - start + 1).last() == digits[i - start]);
        }
        i = i + 1;
        if acc > 0x8000_0000 {
            proof {
                if all_dec_digits(digits) {
                    lemma_digits_value_prefix_le(digits, i - start);
                }
            }
            return None;
        }
    }
    proof {
        assert(digits.take(n - start) =~= digits);
    }
    if negative {
        let v: i32 = (-(acc as i64)) as i32;
        Some(v)
    } else {
        if acc <= 0x7fff_ffff {
            Some(acc as i32)
        } else {
            None
        }
    }
}

/// The port the resolved configuration carries: the raw value parsed as a
/// decimal `i32`, or the default when the value is absent or does not parse.
pub open spec fn spec_resolved_port(raw: Option<String>) -> int {
    match raw {
        Option::None => DEFAULT_PORT as int,
        Option::Some(s) => match spec_parse_i32(s@) {
            Option::Some(v) => v,
            Option::None => DEFAULT_PORT as int,
        },
    }
}

/// Resolve the listening port: parse failures and absence both fall back
/// silently to the default.
pub fn resolve_port(raw: &Option<String>) -> (port: i32)
    ensures
        port as int == spec_resolved_port(*raw),
{
    match raw {
        None => DEFAULT_PORT,
        Some(s) => match parse_i32(s.as_str()) {
            Some(v) => v,
            None => DEFAULT_PORT,
        },
    }
}

/// Resolve the provider redirect URL, falling back to the default when none
/// is given.
pub fn resolve_redirect_url(raw: Option<String>) -> (url: String)
    ensures
        raw matches Some(u) ==> url == u,
        raw is None ==> url@ == DEFAULT_REDIRECT_URL@,
{
    match raw {
        Some(u) => u,
        None => DEFAULT_REDIRECT_URL.to_owned(),
    }
}

/// A credential counts as present only when it is set and non-empty.
pub open spec fn credential_present(raw: Option<String>) -> bool {
    raw matches Some(s) && s@.len() > 0
}

/// Demand the client id; absence is fatal for the service.
pub fn require_client_id(raw: Option<String>) -> (r: Result<String, ConfigError>)
    ensures
        r is Ok <==> credential_present(raw),
        r matches Ok(id) ==> raw == Some(id),
        r matches Err(e) ==> e == ConfigError::MissingClientId,
{
    match raw {
        Some(id) => {
            if id.as_str().is_empty() {
                Err(ConfigError::MissingClientId)
            } else {
                Ok(id)
            }
        },
        None => Err(ConfigError::MissingClientId),
    }
}

/// Demand the client secret; absence is fatal for the service.
pub fn require_client_secret(raw: Option<String>) -> (r: Result<String, ConfigError>)
    ensures
        r is Ok <==> credential_present(raw),
        r matches Ok(secret) ==> raw == Some(secret),
        r matches Err(e) ==> e == ConfigError::MissingClientSecret,
{
    match raw {
        Some(secret) => {
            if secret.as_str().is_empty() {
                Err(ConfigError::MissingClientSecret)
            } else {
                Ok(secret)
            }
        },
        None => Err(ConfigError::MissingClientSecret),
    }
}

/// The immutable process configuration, fixed at startup.
pub struct Config {
    pub port: i32,
    pub redirect_url: String,
    pub client_id: String,
    pub client_secret: String,
}

impl Config {
    /// Both credentials are non-empty.
    pub open spec fn wf(self) -> bool {
        self.client_id@.len() > 0 && self.client_secret@.len() > 0
    }
}

/// Resolve the whole configuration from the four raw values.  The port and
/// the redirect URL have defaults; a missing or empty credential is an
/// error, the client id being checked first.
pub fn resolve_config(
    port_raw: Option<String>,
    redirect_raw: Option<String>,
    id_raw: Option<String>,
    secret_raw: Option<String>,
) -> (r: Result<Config, ConfigError>)
    ensures
        r is Ok <==> credential_present(id_raw) && credential_present(secret_raw),
        !credential_present(id_raw) ==> (r matches Err(e) && e == ConfigError::MissingClientId),
        credential_present(id_raw) && !credential_present(secret_raw) ==> (r matches Err(e) && e
            == ConfigError::MissingClientSecret),
        r matches Ok(c) ==> c.port as int == spec_resolved_port(port_raw),
        r matches Ok(c) ==> (redirect_raw matches Some(u) ==> c.redirect_url == u),
        r matches Ok(c) ==> (redirect_raw is None ==> c.redirect_url@ == DEFAULT_REDIRECT_URL@),
        r matches Ok(c) ==> id_raw == Some(c.client_id) && secret_raw == Some(c.client_secret),
        r matches Ok(c) ==> c.wf(),
{
    let client_id = match require_client_id(id_raw) {
        Ok(v) => v,
        Err(e) => {
            return Err(e);
        },
    };
    let client_secret = match require_client_secret(secret_raw) {
        Ok(v) => v,
        Err(e) => {
            return Err(e);
        },
    };
    let port = resolve_port(&port_raw);
    let redirect_url = resolve_redirect_url(redirect_raw);
    Ok(Config { port, redirect_url, client_id, client_secret })
}

} // verus!
