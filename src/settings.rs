//! Pipeline settings read from configuration texts, each with its default.
use vstd::prelude::*;

use vstd::string::StrSliceExecFns;
use vstd::string::StringExecFns;

verus! {

/// The value of a digit string, most significant digit first.
pub open spec fn digits_value(s: Seq<char>) -> int
    decreases s.len(),
{
    if s.len() == 0 {
        0
    } else {
        digits_value(s.drop_last()) * 10 + (s.last() as int - '0' as int)
    }
}

pub open spec fn all_digits(s: Seq<char>) -> bool {
    forall|i: int| 0 <= i < s.len() ==> '0' <= #[trigger] s[i] <= '9'
}

/// The `u64` that a text denotes in the form that `u64::from_str` takes: an
/// optional `+`, then at least one decimal digit, the value in range.
pub open spec fn u64_value(s: Seq<char>) -> Option<u64> {
    let d = if s.len() > 0 && s[0] == '+' { s.drop_first() } else { s };
    if d.len() > 0 && all_digits(d) && digits_value(d) <= u64::MAX {
        Some(digits_value(d) as u64)
    } else {
        None
    }
}

/// The boolean that a text denotes: exactly `true` or `false`.
pub open spec fn bool_value(s: Seq<char>) -> Option<bool> {
    if s == "true"@ {
        Some(true)
    } else if s == "false"@ {
        Some(false)
    } else {
        None
    }
}

proof fn lemma_digits_value_nonneg(s: Seq<char>)
    requires
        all_digits(s),
    ensures
        digits_value(s) >= 0,
    decreases s.len(),
{
    if s.len() > 0 {
        lemma_digits_value_nonneg(s.drop_last());
    }
}

/// Parses a decimal `u64`.
pub fn parse_u64(text: &str) -> (r: Option<u64>)
    ensures
        r == u64_value(text@),
{
    let n = text.unicode_len();
    let mut start: usize = 0;
    if n > 0 && text.get_char(0) == '+' {
        start = 1;
    }
    let ghost d = if text@.len() > 0 && text@[0] == '+' { text@.drop_first() } else { text@ };
    assert(d =~= text@.subrange(start as int, n as int));
    if start == n {
        return None;
    }
    let mut value: u64 = 0;
    let mut i: usize = start;
    while i < n
        invariant
            n == text@.len(),
            start <= i <= n,
            d =~= text@.subrange(start as int, n as int),
            d == (if text@.len() > 0 && text@[0] == '+' { text@.drop_first() } else { text@ }),
            d.len() > 0,
            all_digits(text@.subrange(start as int, i as int)),
            value as int == digits_value(text@.subrange(start as int, i as int)),
        decreases n - i,
    {
        let c = text.get_char(i);
        let ghost prefix = text@.subrange(start as int, i as int);
        let ghost next = text@.subrange(start as int, i + 1);
        assert(next.drop_last() =~= prefix);
        if c < '0' || c > '9' {
            assert(!all_digits(d)) by {
                assert(d[i - start] == c);
            }
            return None;
        }
        let digit = (c as u32 - '0' as u32) as u64;
        if value > (u64::MAX - digit) / 10 {
            proof {
                lemma_digits_value_nonneg(prefix);
                assert(digits_value(next) > u64::MAX) by (nonlinear_arith)
                    requires
                        digits_value(next) == value * 10 + digit,
                        value > (u64::MAX - digit) / 10,
                        digit <= 9,
                ;
                assert(next =~= d.subrange(0, (i - start) as int + 1));
                assert(all_digits(next)) by {
                    assert forall|j: int| 0 <= j < next.len() implies '0' <= #[trigger] next[j]
                        <= '9' by {
                        if j < prefix.len() {
                            assert(next[j] == prefix[j]);
                        }
                    }
                }
                lemma_prefix_value_bound(d, (i - start) as int + 1);
            }
            return None;
        }
        value = value * 10 + digit;
        proof {
            assert(all_digits(next)) by {
                assert forall|j: int| 0 <= j < next.len() implies '0' <= #[trigger] next[j]
                    <= '9' by {
                    if j < prefix.len() {
                        assert(next[j] == prefix[j]);
                    }
                }
            }
        }
        i = i + 1;
    }
    assert(text@.subrange(start as int, n as int) =~= d);
    Some(value)
}

/// A digit string is worth at least any of its prefixes.
proof fn lemma_prefix_value_bound(d: Seq<char>, k: int)
    requires
        0 <= k <= d.len(),
        all_digits(d.subrange(0, k)),
    ensures
        all_digits(d) ==> digits_value(d) >= digits_value(d.subrange(0, k)),
    decreases d.len() - k,
{
    if k < d.len() && all_digits(d) {
        let p = d.subrange(0, k);
        let q = d.subrange(0, k + 1);
        assert(q.drop_last() =~= p);
        assert(all_digits(q));
        lemma_digits_value_nonneg(p);
        lemma_prefix_value_bound(d, k + 1);
    }
    if k == d.len() {
        assert(d.subrange(0, k) =~= d);
    }
}

/// Parses `true` or `false`.
pub fn parse_bool(text: &str) -> (r: Option<bool>)
    ensures
        r == bool_value(text@),
{
    let t = String::from_str(text);
    let yes = String::from_str("true");
    let no = String::from_str("false");
    if t == yes {
        Some(true)
    } else if t == no {
        Some(false)
    } else {
        None
    }
}

} // verus!

verus! {

/// How a quote is requested and how the swap treats the native asset.
#[derive(Debug, Clone)]
pub struct SwapSettings {
    pub slippage_bps: Option<u64>,
    pub only_direct_routes: bool,
    pub swap_mode: String,
    pub wrap_and_unwrap_sol: bool,
}

/// The value of an optional setting text, if present and well-formed.
pub open spec fn optional_u64(text: Option<String>) -> Option<u64> {
    match text {
        Some(t) => u64_value(t@),
        None => None,
    }
}

pub open spec fn optional_bool(text: Option<String>) -> Option<bool> {
    match text {
        Some(t) => bool_value(t@),
        None => None,
    }
}

pub open spec fn bool_or(o: Option<bool>, default: bool) -> bool {
    match o {
        Some(b) => b,
        None => default,
    }
}

fn parse_optional_u64(text: &Option<String>) -> (r: Option<u64>)
    ensures
        r == optional_u64(*text),
{
    match text {
        Some(t) => parse_u64(t.as_str()),
        None => None,
    }
}

fn parse_optional_bool(text: &Option<String>) -> (r: Option<bool>)
    ensures
        r == optional_bool(*text),
{
    match text {
        Some(t) => parse_bool(t.as_str()),
        None => None,
    }
}

impl SwapSettings {
    /// Reads the swap settings from their configuration texts. A slippage
    /// that is absent or not a number asks for automatic slippage; direct
    /// routes only, unless set otherwise; mode `ExactIn` unless set; no
    /// wrapping of the native asset unless set.
    pub fn from_values(
        slippage_bps: Option<String>,
        only_direct_routes: Option<String>,
        swap_mode: Option<String>,
        wrap_and_unwrap_sol: Option<String>,
    ) -> (r: SwapSettings)
        ensures
            r.slippage_bps == optional_u64(slippage_bps),
            r.only_direct_routes == bool_or(optional_bool(only_direct_routes), true),
            r.swap_mode@ == match swap_mode {
                Some(m) => m@,
                None => "ExactIn"@,
            },
            r.wrap_and_unwrap_sol == bool_or(optional_bool(wrap_and_unwrap_sol), false),
    {
        let slippage = parse_optional_u64(&slippage_bps);
        let direct = match parse_optional_bool(&only_direct_routes) {
            Some(b) => b,
            None => true,
        };
        let wrap = match parse_optional_bool(&wrap_and_unwrap_sol) {
            Some(b) => b,
            None => false,
        };
        let mode = match swap_mode {
            Some(m) => m,
            None => String::from_str("ExactIn"),
        };
        SwapSettings {
            slippage_bps: slippage,
            only_direct_routes: direct,
            swap_mode: mode,
            wrap_and_unwrap_sol: wrap,
        }
    }
}

/// A submission setting whose text is present but malformed; the text is
/// kept.
#[derive(Debug, Clone, PartialEq, Eq)]
pub enum SettingError {
    SkipPreflight(String),
    MaxRetries(String),
    TimeoutSecs(String),
}

/// How a signed transaction is submitted.
#[derive(Debug, Clone, Copy, PartialEq, Eq)]
pub struct SubmissionSettings {
    pub skip_preflight: bool,
    pub max_retries: u64,
    pub timeout_secs: u64,
}

pub open spec fn setting_valid_bool(text: Option<String>) -> bool {
    text matches Some(t) ==> bool_value(t@) is Some
}

pub open spec fn setting_valid_u64(text: Option<String>) -> bool {
    text matches Some(t) ==> u64_value(t@) is Some
}

impl SubmissionSettings {
    /// Reads the submission settings: preflight skipped, 2 retries and 60
    /// seconds unless set. A present but malformed text is an error, never
    /// replaced by the default; the first such setting, in the order above,
    /// is reported.
    pub fn from_values(
        skip_preflight: Option<String>,
        max_retries: Option<String>,
        timeout_secs: Option<String>,
    ) -> (r: Result<SubmissionSettings, SettingError>)
        ensures
            r is Ok <==> setting_valid_bool(skip_preflight) && setting_valid_u64(max_retries)
                && setting_valid_u64(timeout_secs),
            r matches Ok(s) ==> {
                &&& s.skip_preflight == bool_or(optional_bool(skip_preflight), true)
                &&& s.max_retries == match optional_u64(max_retries) {
                    Some(v) => v,
                    None => 2,
                }
                &&& s.timeout_secs == match optional_u64(timeout_secs) {
                    Some(v) => v,
                    None => 60,
                }
            },
            r matches Err(e) ==> if !setting_valid_bool(skip_preflight) {
                e == SettingError::SkipPreflight(skip_preflight->0)
            } else if !setting_valid_u64(max_retries) {
                e == SettingError::MaxRetries(max_retries->0)
            } else {
                e == SettingError::TimeoutSecs(timeout_secs->0)
            },
    {
        let skip = match parse_optional_bool(&skip_preflight) {
            Some(b) => b,
            None => match skip_preflight {
                Some(t) => return Err(SettingError::SkipPreflight(t)),
                None => true,
            },
        };
        let retries = match parse_optional_u64(&max_retries) {
            Some(v) => v,
            None => match max_retries {
                Some(t) => return Err(SettingError::MaxRetries(t)),
                None => 2,
            },
        };
        let timeout = match parse_optional_u64(&timeout_secs) {
            Some(v) => v,
            None => match timeout_secs {
                Some(t) => return Err(SettingError::TimeoutSecs(t)),
                None => 60,
            },
        };
        Ok(SubmissionSettings { skip_preflight: skip, max_retries: retries, timeout_secs: timeout })
    }
}

} // verus!
