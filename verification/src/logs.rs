//! Parsing of nginx access-log lines, in the `combined` format or as JSON
//! objects, into the timestamp and line shipped to Loki and the fields that
//! the filters read.
use vstd::prelude::*;

use crate::config::LogFormat;
use crate::ip_filter::{spec_parse_ip_addr, IpAddress};
use crate::text::{
    decimal_number, is_decimal_number, last_char_in, last_char_in_range, lemma_last_char_in,
    lemma_next_non_decimal, lemma_next_white, next_non_decimal, next_non_decimal_from, next_white,
    next_white_from, chars_of, decimal, push_char, u64_to_string, unsigned_decimal_at_most,
    parse_u64, parse_u16, skip_white, skip_white_from, lemma_skip_white, find_char, find_char_from, i64_to_string, lemma_find_char, signed_decimal,
    string_from_range,
};

verus! {

#[verifier::external_type_specification]
#[verifier::external_body]
pub struct ExJsonError(serde_json::Error);

/// A parsed log line: the Loki timestamp (nanoseconds since the epoch, in
/// decimal), the line to ship, and the fields that the filters read.
#[derive(Debug)]
pub struct ParsedLine {
    pub timestamp_ns: String,
    pub line: String,
    pub remote_addr: Option<IpAddress>,
    pub request_path: Option<String>,
    pub status: Option<u16>,
}

pub struct ParsedLineView {
    pub timestamp_ns: Seq<char>,
    pub line: Seq<char>,
    pub remote_addr: Option<IpAddress>,
    pub request_path: Option<Seq<char>>,
    pub status: Option<u16>,
}

impl View for ParsedLine {
    type V = ParsedLineView;

    open spec fn view(&self) -> ParsedLineView {
        ParsedLineView {
            timestamp_ns: self.timestamp_ns@,
            line: self.line@,
            remote_addr: self.remote_addr,
            request_path: match self.request_path {
                Some(p) => Some(p@),
                None => None,
            },
            status: self.status,
        }
    }
}

#[derive(Debug)]
pub enum ParseError {
    /// The line is not in the nginx combined format.
    Combined,
    /// The timestamp text cannot be read (it is held here).
    Timestamp(String),
    /// The line is not JSON.
    Json(serde_json::Error),
}

/// What a `ParseError` says, without the opaque JSON error.
pub enum ParseFailure {
    Combined,
    Timestamp(Seq<char>),
    Json,
}

impl ParseError {
    pub open spec fn failure(&self) -> ParseFailure {
        match self {
            ParseError::Combined => ParseFailure::Combined,
            ParseError::Timestamp(s) => ParseFailure::Timestamp(s@),
            ParseError::Json(_) => ParseFailure::Json,
        }
    }

    /// A human-readable description of the error; a JSON error is described
    /// by serde_json after the prefix.
    pub fn message(&self) -> (r: String)
        ensures
            match self {
                ParseError::Combined => r@ == "line is not nginx combined format"@,
                ParseError::Timestamp(raw) => r@ == "invalid nginx timestamp: "@ + raw@,
                ParseError::Json(_) => exists|detail: Seq<char>| r@ == "invalid json: "@ + detail,
            },
    {
        match self {
            ParseError::Combined => String::from_str("line is not nginx combined format"),
            ParseError::Timestamp(raw) => {
                let mut m = String::from_str("invalid nginx timestamp: ");
                m.append(raw.as_str());
                m
            },
            ParseError::Json(e) => {
                let mut m = String::from_str("invalid json: ");
                let ghost prefix = m@;
                let detail = json_error_text(e);
                m.append(detail.as_str());
                assert(m@ == prefix + detail@);
                m
            },
        }
    }
}

/// Describes a JSON error with its `Display` (serde_json's message and
/// position); nothing is said of the text.
#[verifier::external_body]
fn json_error_text(e: &serde_json::Error) -> String {
    e.to_string()
}

/// The outcome of a parse, by views.
pub open spec fn outcome(r: Result<ParsedLine, ParseError>) -> Result<ParsedLineView, ParseFailure> {
    match r {
        Ok(p) => Ok(p@),
        Err(e) => Err(e.failure()),
    }
}

// ---------------------------------------------------------------------------
// Request URIs

/// The part of a request URI before its first `?`.
pub open spec fn spec_url_path(uri: Seq<char>) -> Seq<char> {
    uri.subrange(0, find_char(uri, 0, '?'))
}

/// The part of a request URI after its first `?`, empty when there is none.
pub open spec fn spec_query_string(uri: Seq<char>) -> Seq<char> {
    let q = find_char(uri, 0, '?');
    if q < uri.len() {
        uri.subrange(q + 1, uri.len() as int)
    } else {
        Seq::empty()
    }
}

/// The path of a request URI (what precedes `?`).
pub fn url_path(request_uri: &str) -> (r: &str)
    ensures
        r@ == spec_url_path(request_uri@),
{
    let chars = chars_of(request_uri);
    let q = find_char_from(&chars, 0, '?');
    proof {
        lemma_find_char(chars@, 0, '?');
    }
    request_uri.substring_char(0, q)
}

/// The query string of a request URI (what follows `?`).
pub fn query_string(request_uri: &str) -> (r: &str)
    ensures
        r@ == spec_query_string(request_uri@),
{
    let chars = chars_of(request_uri);
    let q = find_char_from(&chars, 0, '?');
    proof {
        lemma_find_char(chars@, 0, '?');
    }
    if q < chars.len() {
        request_uri.substring_char(q + 1, chars.len())
    } else {
        proof {
            reveal_strlit("");
        }
        ""
    }
}

/// `-` stands for an empty value.
pub open spec fn spec_dash_to_empty(s: Seq<char>) -> Seq<char> {
    if s == seq!['-'] {
        Seq::empty()
    } else {
        s
    }
}

fn dash_to_empty(chars: &Vec<char>, lo: usize, hi: usize) -> (r: String)
    requires
        lo <= hi <= chars@.len(),
    ensures
        r@ == spec_dash_to_empty(chars@.subrange(lo as int, hi as int)),
{
    if hi > lo && hi - lo == 1 && chars[lo] == '-' {
        assert(chars@.subrange(lo as int, hi as int) =~= seq!['-']);
        String::new()
    } else {
        let r = string_from_range(chars, lo, hi);
        proof {
            let sub = chars@.subrange(lo as int, hi as int);
            if sub == seq!['-'] {
                assert(sub.len() == 1);
                assert(sub[0] == chars@[lo as int]);
            }
        }
        r
    }
}

// ---------------------------------------------------------------------------
// JSON text

pub open spec fn hex_digit(d: u32) -> char {
    if d < 10 {
        ((d + 48) as u32) as char
    } else {
        ((d + 87) as u32) as char
    }
}

/// How a JSON string spells one character: `"` and `\` and the control
/// characters are escaped, all else is written as is.
pub open spec fn json_escape_char(c: char) -> Seq<char> {
    let u = c as u32;
    if c == '"' {
        seq!['\\', '"']
    } else if c == '\\' {
        seq!['\\', '\\']
    } else if u == 8 {
        seq!['\\', 'b']
    } else if u == 9 {
        seq!['\\', 't']
    } else if u == 10 {
        seq!['\\', 'n']
    } else if u == 12 {
        seq!['\\', 'f']
    } else if u == 13 {
        seq!['\\', 'r']
    } else if u < 0x20 {
        seq!['\\', 'u', '0', '0', hex_digit(u / 16), hex_digit(u % 16)]
    } else {
        seq![c]
    }
}

pub open spec fn json_escape(s: Seq<char>) -> Seq<char>
    decreases s.len(),
{
    if s.len() == 0 {
        Seq::empty()
    } else {
        json_escape(s.drop_last()) + json_escape_char(s.last())
    }
}

/// A string written as a JSON string literal.
pub open spec fn json_quote(s: Seq<char>) -> Seq<char> {
    seq!['"'] + json_escape(s) + seq!['"']
}

/// Writes a string as a JSON string literal with serde_json (the `Display` of
/// `serde_json::Value::String`, whose escaping is the table in serde_json's
/// `ser.rs`: quote, backslash and control characters, lowercase hex).
#[verifier::external_body]
fn json_string(s: &str) -> (r: String)
    ensures
        r@ == json_quote(s@),
{
    serde_json::Value::String(s.to_owned()).to_string()
}

fn push_json_string(out: &mut String, s: &str)
    ensures
        final(out)@ == old(out)@ + json_quote(s@),
{
    let q = json_string(s);
    out.append(q.as_str());
}

// ---------------------------------------------------------------------------
// Timestamps

/// The format of nginx's `$time_local`, as chrono spells it.
pub open spec fn nginx_time_format() -> Seq<char> {
    "%d/%b/%Y:%H:%M:%S %z"@
}

/// A date and time read by chrono, as plain values: nanoseconds since the
/// epoch (`None` beyond the range of `i64`) and its RFC 3339 spelling.
pub struct DateTimeParts {
    pub nanos: Option<i64>,
    pub rfc3339: String,
}

/// What `DateTime::parse_from_str(raw, fmt)` reads, as
/// `(timestamp_nanos_opt(), to_rfc3339())`; `None` when it fails.
pub uninterp spec fn spec_chrono_parse_from_str(raw: Seq<char>, fmt: Seq<char>) -> Option<
    (Option<i64>, Seq<char>),
>;

/// What `DateTime::parse_from_rfc3339(raw)` reads, as `timestamp_nanos_opt()`;
/// `None` when it fails.
pub uninterp spec fn spec_chrono_parse_from_rfc3339(raw: Seq<char>) -> Option<Option<i64>>;

/// Reads a date and time with chrono's `DateTime::parse_from_str` and returns
/// its `timestamp_nanos_opt` and `to_rfc3339`; the result is named.
#[verifier::external_body]
fn parse_date_time(raw: &str, fmt: &str) -> (r: Option<DateTimeParts>)
    ensures
        r matches Some(p) ==> spec_chrono_parse_from_str(raw@, fmt@) == Some((p.nanos, p.rfc3339@)),
        r is None ==> spec_chrono_parse_from_str(raw@, fmt@) is None,
{
    match chrono::DateTime::parse_from_str(raw, fmt) {
        Ok(dt) => Some(DateTimeParts { nanos: dt.timestamp_nanos_opt(), rfc3339: dt.to_rfc3339() }),
        Err(_) => None,
    }
}

/// Reads an RFC 3339 date and time with chrono's `DateTime::parse_from_rfc3339`
/// and returns its `timestamp_nanos_opt`; the result is named.
#[verifier::external_body]
fn parse_rfc3339_nanos(raw: &str) -> (r: Option<Option<i64>>)
    ensures
        r == spec_chrono_parse_from_rfc3339(raw@),
{
    match chrono::DateTime::parse_from_rfc3339(raw) {
        Ok(dt) => Some(dt.timestamp_nanos_opt()),
        Err(_) => None,
    }
}

#[verifier::external_type_specification]
#[verifier::external_body]
pub struct ExSystemTime(std::time::SystemTime);

/// Reads the system clock with std's `SystemTime::now`.  It depends on the
/// clock, so nothing is said of it.
#[verifier::external_body]
fn system_now() -> std::time::SystemTime {
    std::time::SystemTime::now()
}

/// The time since the Unix epoch, with std's `SystemTime::duration_since`,
/// as whole seconds and the nanoseconds past them; `None` for a time before
/// the epoch.  The time is opaque here, so nothing more is said of it.
#[verifier::external_body]
fn since_epoch(t: &std::time::SystemTime) -> (r: Option<(u64, u32)>)
    ensures
        r matches Some((_, nanos)) ==> nanos < 1_000_000_000,
{
    match t.duration_since(std::time::UNIX_EPOCH) {
        Ok(d) => Some((d.as_secs(), d.subsec_nanos())),
        Err(_) => None,
    }
}

/// The nanoseconds since the Unix epoch of a time given as whole seconds and
/// the nanoseconds past them, when that fits `i64`.
pub open spec fn epoch_nanos(secs: u64, nanos: u32) -> Option<i64> {
    let total = secs * 1_000_000_000 + nanos;
    if total <= i64::MAX {
        Some(total as i64)
    } else {
        None
    }
}

/// Computes `epoch_nanos`.
fn to_epoch_nanos(secs: u64, nanos: u32) -> (r: Option<i64>)
    requires
        nanos < 1_000_000_000,
    ensures
        r == epoch_nanos(secs, nanos),
{
    let limit: u64 = 9_223_372_036;
    if secs > limit {
        return None;
    }
    let total: u64 = secs * 1_000_000_000 + nanos as u64;
    if total > 9_223_372_036_854_775_807u64 {
        None
    } else {
        Some(total as i64)
    }
}

/// The current time in nanoseconds since the Unix epoch, as chrono's
/// `Utc::now().timestamp_nanos_opt()` gives it; `None` when the clock reads
/// before the epoch (where chrono's `Utc::now` would panic) or beyond the
/// range of `i64`.  It depends on the clock, so nothing more is said of it.
fn current_time_nanos() -> (r: Option<i64>) {
    let now = system_now();
    match since_epoch(&now) {
        Some((secs, nanos)) => to_epoch_nanos(secs, nanos),
        None => None,
    }
}

/// Whether chrono reads an nginx `$time_local` text as a time beyond the
/// nanosecond range of `i64` (after the year 2262).
pub open spec fn nginx_time_overflows(raw: Seq<char>) -> bool {
    match spec_chrono_parse_from_str(raw, nginx_time_format()) {
        Some((None, _)) => true,
        _ => false,
    }
}

/// Whether chrono reads a JSON log's time text, as RFC 3339 or else as
/// nginx's `$time_local`, as a time beyond the nanosecond range of `i64`.
pub open spec fn time_text_overflows(raw: Seq<char>) -> bool {
    match spec_chrono_parse_from_rfc3339(raw) {
        Some(nanos) => nanos is None,
        None => nginx_time_overflows(raw),
    }
}

/// The nanosecond timestamp that an nginx `$time_local` text denotes.  (The
/// functions that read a timestamp leave out, by their `requires`, a time
/// that overflows; the value given for it here is an error.)
pub open spec fn spec_nginx_time_to_ns(raw: Seq<char>) -> Result<Seq<char>, ParseFailure> {
    match spec_chrono_parse_from_str(raw, nginx_time_format()) {
        Some((Some(ns), _)) => Ok(signed_decimal(ns as int)),
        _ => Err(ParseFailure::Timestamp(raw)),
    }
}

/// The nanosecond timestamp of a JSON log's time text: RFC 3339 first, then
/// nginx's `$time_local`.
pub open spec fn spec_parse_timestamp(raw: Seq<char>) -> Result<Seq<char>, ParseFailure> {
    match spec_chrono_parse_from_rfc3339(raw) {
        Some(Some(ns)) => Ok(signed_decimal(ns as int)),
        Some(None) => Err(ParseFailure::Timestamp(raw)),
        None => spec_nginx_time_to_ns(raw),
    }
}

pub open spec fn text_outcome(r: Result<String, ParseError>) -> Result<Seq<char>, ParseFailure> {
    match r {
        Ok(s) => Ok(s@),
        Err(e) => Err(e.failure()),
    }
}

/// The nanosecond timestamp, in decimal, of an nginx `$time_local` text.
pub fn nginx_time_to_ns(raw: &str) -> (r: Result<String, ParseError>)
    requires
        !nginx_time_overflows(raw@),
    ensures
        text_outcome(r) == spec_nginx_time_to_ns(raw@),
{
    match parse_date_time(raw, "%d/%b/%Y:%H:%M:%S %z") {
        Some(parts) => match parts.nanos {
            Some(ns) => Ok(i64_to_string(ns)),
            None => Err(ParseError::Timestamp(String::from_str(raw))),
        },
        None => Err(ParseError::Timestamp(String::from_str(raw))),
    }
}

fn parse_timestamp(raw: &str) -> (r: Result<String, ParseError>)
    requires
        !time_text_overflows(raw@),
    ensures
        text_outcome(r) == spec_parse_timestamp(raw@),
{
    match parse_rfc3339_nanos(raw) {
        Some(Some(ns)) => Ok(i64_to_string(ns)),
        Some(None) => Err(ParseError::Timestamp(String::from_str(raw))),
        None => nginx_time_to_ns(raw),
    }
}

// ---------------------------------------------------------------------------
// The combined format

/// Where the fields of a combined-format line end.  The line reads
/// `$remote_addr $ident $remote_user [$time_local] "$method $uri $protocol"
/// $status $body_bytes_sent "$http_referer" "$http_user_agent"`, and may go on
/// after the last quote.
#[derive(Clone, Copy, Debug)]
pub struct CombinedSpans {
    pub addr_end: usize,
    pub ident_end: usize,
    pub user_end: usize,
    pub time_end: usize,
    pub method_end: usize,
    pub path_end: usize,
    pub request_end: usize,
    pub body_end: usize,
    pub referer_end: usize,
    pub agent_end: usize,
}

/// Where `$body_bytes_sent` ends when it starts at `b0`: after a run of
/// decimal digits, or after a single `-`.
pub open spec fn body_end_at(s: Seq<char>, b0: int) -> int {
    if 0 <= b0 < s.len() && s[b0] == '-' {
        b0 + 1
    } else {
        next_non_decimal(s, b0)
    }
}

/// The fields of a combined-format line, located as follows: the address,
/// the ident and the user are runs of non-white-space characters, each
/// followed by one space; the time is the non-empty text between `[` and the
/// first `]`; the method is a run of non-white-space characters followed by a
/// space; the request target runs up to the last space before the closing
/// quote of the request, and the protocol is the non-empty rest up to that
/// quote; the status is three decimal digits; the body size is decimal digits
/// or `-`; the referer and the user agent are quoted texts without quotes.
/// Digits are the Unicode decimal numbers and white space is Unicode
/// `White_Space`.
pub open spec fn spec_combined_spans(s: Seq<char>) -> Option<CombinedSpans> {
    let n = s.len() as int;
    let a1 = next_white(s, 0);
    let i1 = next_white(s, a1 + 1);
    let u1 = next_white(s, i1 + 1);
    let t1 = find_char(s, u1 + 2, ']');
    let m1 = next_white(s, t1 + 3);
    let q = find_char(s, m1 + 1, '"');
    let k = last_char_in(s, m1 + 1, q - 1, ' ');
    let b1 = body_end_at(s, q + 6);
    let r1 = find_char(s, b1 + 2, '"');
    let ua1 = find_char(s, r1 + 3, '"');
    if 0 < a1 < n && s[a1] == ' ' && a1 + 1 < i1 < n && s[i1] == ' ' && i1 + 1 < u1 && u1 + 1 < n
        && s[u1] == ' ' && s[u1 + 1] == '[' && u1 + 2 < t1 < n && t1 + 2 < n && s[t1 + 1] == ' '
        && s[t1 + 2] == '"' && t1 + 3 < m1 < n && s[m1] == ' ' && q < n && k >= m1 + 1 && q + 5 < n
        && s[q + 1] == ' ' && is_decimal_number(s[q + 2]) && is_decimal_number(s[q + 3])
        && is_decimal_number(s[q + 4]) && s[q + 5] == ' ' && q + 6 < b1 && b1 + 1 < n && s[b1]
        == ' ' && s[b1 + 1] == '"' && r1 + 2 < n && s[r1 + 1] == ' ' && s[r1 + 2] == '"' && ua1 < n {
        Some(
            CombinedSpans {
                addr_end: a1 as usize,
                ident_end: i1 as usize,
                user_end: u1 as usize,
                time_end: t1 as usize,
                method_end: m1 as usize,
                path_end: k as usize,
                request_end: q as usize,
                body_end: b1 as usize,
                referer_end: r1 as usize,
                agent_end: ua1 as usize,
            },
        )
    } else {
        None
    }
}

/// Locates the fields of a combined-format line.
#[verifier::rlimit(30)]
pub fn combined_spans(chars: &Vec<char>) -> (r: Option<CombinedSpans>)
    ensures
        r == spec_combined_spans(chars@),
        r matches Some(sp) ==> sp.addr_end < sp.ident_end < sp.user_end && sp.user_end + 2
            < sp.time_end && sp.time_end + 3 < sp.method_end && sp.method_end < sp.path_end
            < sp.request_end && sp.request_end + 6 < sp.body_end && sp.body_end + 2 <= sp.referer_end
            && sp.referer_end + 3 <= sp.agent_end < chars@.len(),
{
    let ghost s = chars@;
    let n = chars.len();
    let a1 = next_white_from(chars, 0);
    proof { lemma_next_white(s, 0); }
    if !(0 < a1 && a1 < n && chars[a1] == ' ') {
        return None;
    }
    let i1 = next_white_from(chars, a1 + 1);
    proof { lemma_next_white(s, a1 + 1); }
    if !(a1 + 1 < i1 && i1 < n && chars[i1] == ' ') {
        return None;
    }
    let u1 = next_white_from(chars, i1 + 1);
    proof { lemma_next_white(s, i1 + 1); }
    if !(i1 + 1 < u1 && u1 < n && n - u1 > 1 && chars[u1] == ' ' && chars[u1 + 1] == '[') {
        return None;
    }
    let t1 = find_char_from(chars, u1 + 2, ']');
    proof { lemma_find_char(s, u1 + 2, ']'); }
    if !(u1 + 2 < t1 && t1 < n && n - t1 > 2 && chars[t1 + 1] == ' ' && chars[t1 + 2] == '"') {
        return None;
    }
    let m1 = next_white_from(chars, t1 + 3);
    proof { lemma_next_white(s, t1 + 3); }
    if !(t1 + 3 < m1 && m1 < n && chars[m1] == ' ') {
        return None;
    }
    let q = find_char_from(chars, m1 + 1, '"');
    proof { lemma_find_char(s, m1 + 1, '"'); }
    if !(q < n && q >= m1 + 2) {
        proof { lemma_last_char_in(s, m1 + 1, q - 1, ' '); }
        return None;
    }
    let k = match last_char_in_range(chars, m1 + 1, q - 1, ' ') {
        Some(k) => k,
        None => return None,
    };
    proof { lemma_last_char_in(s, m1 + 1, q - 1, ' '); }
    if !(n - q > 5 && chars[q + 1] == ' ' && decimal_number(chars[q + 2]) && decimal_number(
        chars[q + 3],
    ) && decimal_number(chars[q + 4]) && chars[q + 5] == ' ') {
        return None;
    }
    let b0 = q + 6;
    let b1 = if b0 < n && chars[b0] == '-' {
        b0 + 1
    } else {
        next_non_decimal_from(chars, b0)
    };
    proof { lemma_next_non_decimal(s, b0 as int); }
    if !(b0 < b1 && b1 < n && n - b1 > 1 && chars[b1] == ' ' && chars[b1 + 1] == '"') {
        return None;
    }
    let r1 = find_char_from(chars, b1 + 2, '"');
    proof { lemma_find_char(s, b1 + 2, '"'); }
    if !(r1 < n && n - r1 > 2 && chars[r1 + 1] == ' ' && chars[r1 + 2] == '"') {
        return None;
    }
    let ua1 = find_char_from(chars, r1 + 3, '"');
    proof { lemma_find_char(s, r1 + 3, '"'); }
    if !(ua1 < n) {
        return None;
    }
    Some(
        CombinedSpans {
            addr_end: a1,
            ident_end: i1,
            user_end: u1,
            time_end: t1,
            method_end: m1,
            path_end: k,
            request_end: q,
            body_end: b1,
            referer_end: r1,
            agent_end: ua1,
        },
    )
}

pub open spec fn addr_text(s: Seq<char>, sp: CombinedSpans) -> Seq<char> {
    s.subrange(0, sp.addr_end as int)
}

pub open spec fn user_text(s: Seq<char>, sp: CombinedSpans) -> Seq<char> {
    s.subrange(sp.ident_end + 1, sp.user_end as int)
}

pub open spec fn time_text(s: Seq<char>, sp: CombinedSpans) -> Seq<char> {
    s.subrange(sp.user_end + 2, sp.time_end as int)
}

pub open spec fn method_text(s: Seq<char>, sp: CombinedSpans) -> Seq<char> {
    s.subrange(sp.time_end + 3, sp.method_end as int)
}

pub open spec fn path_text(s: Seq<char>, sp: CombinedSpans) -> Seq<char> {
    s.subrange(sp.method_end + 1, sp.path_end as int)
}

pub open spec fn protocol_text(s: Seq<char>, sp: CombinedSpans) -> Seq<char> {
    s.subrange(sp.path_end + 1, sp.request_end as int)
}

pub open spec fn status_text(s: Seq<char>, sp: CombinedSpans) -> Seq<char> {
    s.subrange(sp.request_end + 2, sp.request_end + 5)
}

pub open spec fn body_text(s: Seq<char>, sp: CombinedSpans) -> Seq<char> {
    s.subrange(sp.request_end + 6, sp.body_end as int)
}

pub open spec fn referer_text(s: Seq<char>, sp: CombinedSpans) -> Seq<char> {
    s.subrange(sp.body_end + 2, sp.referer_end as int)
}

pub open spec fn agent_text(s: Seq<char>, sp: CombinedSpans) -> Seq<char> {
    s.subrange(sp.referer_end + 3, sp.agent_end as int)
}

/// A JSON number, or `null` for a missing one.
pub open spec fn json_number(n: Option<nat>) -> Seq<char> {
    match n {
        Some(v) => decimal(v),
        None => "null"@,
    }
}

/// The JSON object shipped for a combined-format line: its fields under
/// nginx's variable names and friendlier ones, members in key order, no
/// white space.
pub open spec fn combined_record(
    s: Seq<char>,
    sp: CombinedSpans,
    rfc3339: Seq<char>,
    status: nat,
    body: Option<nat>,
) -> Seq<char> {
    let method = method_text(s, sp);
    let path = path_text(s, sp);
    let protocol = protocol_text(s, sp);
    let referer = spec_dash_to_empty(referer_text(s, sp));
    let agent = agent_text(s, sp);
    "{\"args\":"@ + json_quote(spec_query_string(path)) + ",\"body_bytes_sent\":"@ + json_number(
        body,
    )
        + ",\"geoip_city_name\":\"\",\"geoip_country_code\":\"\",\"geoip_country_iso3\":\"\",\"geoip_latitude\":null,\"geoip_longitude\":null,\"http_referer\":"@
        + json_quote(referer) + ",\"http_user_agent\":"@ + json_quote(agent) + ",\"message\":"@
        + json_quote(s) + ",\"method\":"@ + json_quote(method) + ",\"path\":"@ + json_quote(path)
        + ",\"protocol\":"@ + json_quote(protocol) + ",\"referer\":"@ + json_quote(referer)
        + ",\"remote_addr\":"@ + json_quote(addr_text(s, sp)) + ",\"remote_user\":"@ + json_quote(
        spec_dash_to_empty(user_text(s, sp)),
    ) + ",\"request\":"@ + json_quote(method + seq![' '] + path + seq![' '] + protocol)
        + ",\"request_method\":"@ + json_quote(method) + ",\"request_time\":0.0,\"request_uri\":"@
        + json_quote(path) + ",\"server_protocol\":"@ + json_quote(protocol) + ",\"status\":"@
        + decimal(status) + ",\"time_iso8601\":"@ + json_quote(rfc3339) + ",\"time_local\":"@
        + json_quote(time_text(s, sp)) + ",\"user_agent\":"@ + json_quote(agent) + "}"@
}

/// The body size of a combined-format line: `Some(None)` for `-`, and `None`
/// when the digits do not read as a `u64`.
pub open spec fn spec_body_value(s: Seq<char>, sp: CombinedSpans) -> Option<Option<nat>> {
    let body = body_text(s, sp);
    if body == seq!['-'] {
        Some(None::<nat>)
    } else {
        match unsigned_decimal_at_most(body, u64::MAX as nat) {
            Some(b) => Some(Some(b)),
            None => None,
        }
    }
}

/// The status of a combined-format line, when its digits read as a `u16`.
pub open spec fn spec_status_value(s: Seq<char>, sp: CombinedSpans) -> Option<nat> {
    unsigned_decimal_at_most(status_text(s, sp), 65535)
}

/// Whether a combined-format line, well formed otherwise, has a time that
/// lies beyond the nanosecond range of `i64`.
pub open spec fn combined_time_overflows(s: Seq<char>) -> bool {
    match spec_combined_spans(s) {
        Some(sp) => nginx_time_overflows(time_text(s, sp)) && spec_body_value(s, sp) is Some
            && spec_status_value(s, sp) is Some,
        None => false,
    }
}

/// What a combined-format line parses to.  (The parsers leave out, by their
/// `requires`, a line with `combined_time_overflows`; the value given for it
/// here is an error.)
pub open spec fn spec_parse_combined(s: Seq<char>) -> Result<ParsedLineView, ParseFailure> {
    match spec_combined_spans(s) {
        None => Err(ParseFailure::Combined),
        Some(sp) => {
            let time = time_text(s, sp);
            match spec_chrono_parse_from_str(time, nginx_time_format()) {
                None => Err(ParseFailure::Timestamp(time)),
                Some((nanos, rfc3339)) => {
                    let body_value = spec_body_value(s, sp);
                    let status = spec_status_value(s, sp);
                    if body_value is None || status is None {
                        Err(ParseFailure::Combined)
                    } else {
                        match nanos {
                            None => Err(ParseFailure::Timestamp(time)),
                            Some(ns) => Ok(
                                ParsedLineView {
                                    timestamp_ns: signed_decimal(ns as int),
                                    line: combined_record(
                                        s,
                                        sp,
                                        rfc3339,
                                        status->Some_0,
                                        body_value->Some_0,
                                    ),
                                    remote_addr: spec_parse_ip_addr(addr_text(s, sp)),
                                    request_path: Some(spec_url_path(path_text(s, sp))),
                                    status: Some(status->Some_0 as u16),
                                },
                            ),
                        }
                    }
                },
            }
        },
    }
}

fn push_json_number(out: &mut String, n: Option<u64>)
    ensures
        final(out)@ == old(out)@ + json_number(
            match n {
                Some(v) => Some(v as nat),
                None => None,
            },
        ),
{
    match n {
        Some(v) => {
            let t = u64_to_string(v);
            out.append(t.as_str());
        },
        None => {
            out.append("null");
        },
    }
}

/// Writes `combined_record`.
fn combined_record_text(
    line: &str,
    chars: &Vec<char>,
    sp: CombinedSpans,
    rfc3339: &str,
    status: u16,
    body: Option<u64>,
) -> (r: String)
    requires
        chars@ == line@,
        spec_combined_spans(chars@) == Some(sp),
        sp.addr_end < sp.ident_end < sp.user_end && sp.user_end + 2 < sp.time_end && sp.time_end
            + 3 < sp.method_end && sp.method_end < sp.path_end < sp.request_end && sp.request_end
            + 6 < sp.body_end && sp.body_end + 2 <= sp.referer_end && sp.referer_end + 3
            <= sp.agent_end < chars@.len(),
    ensures
        r@ == combined_record(
            line@,
            sp,
            rfc3339@,
            status as nat,
            match body {
                Some(v) => Some(v as nat),
                None => None,
            },
        ),
{
    let ghost s = chars@;
    let method = string_from_range(chars, sp.time_end + 3, sp.method_end);
    let path = string_from_range(chars, sp.method_end + 1, sp.path_end);
    let protocol = string_from_range(chars, sp.path_end + 1, sp.request_end);
    let referer = dash_to_empty(chars, sp.body_end + 2, sp.referer_end);
    let agent = string_from_range(chars, sp.referer_end + 3, sp.agent_end);
    let addr = string_from_range(chars, 0, sp.addr_end);
    let user = dash_to_empty(chars, sp.ident_end + 1, sp.user_end);
    let time = string_from_range(chars, sp.user_end + 2, sp.time_end);
    let mut request = method.clone();
    push_char(&mut request, ' ');
    request.append(path.as_str());
    push_char(&mut request, ' ');
    request.append(protocol.as_str());
    assert(request@ =~= method@ + seq![' '] + path@ + seq![' '] + protocol@);
    let mut out = String::from_str("{\"args\":");
    push_json_string(&mut out, query_string(path.as_str()));
    out.append(",\"body_bytes_sent\":");
    push_json_number(&mut out, body);
    out.append(
        ",\"geoip_city_name\":\"\",\"geoip_country_code\":\"\",\"geoip_country_iso3\":\"\",\"geoip_latitude\":null,\"geoip_longitude\":null,\"http_referer\":",
    );
    push_json_string(&mut out, referer.as_str());
    out.append(",\"http_user_agent\":");
    push_json_string(&mut out, agent.as_str());
    out.append(",\"message\":");
    push_json_string(&mut out, line);
    out.append(",\"method\":");
    push_json_string(&mut out, method.as_str());
    out.append(",\"path\":");
    push_json_string(&mut out, path.as_str());
    out.append(",\"protocol\":");
    push_json_string(&mut out, protocol.as_str());
    out.append(",\"referer\":");
    push_json_string(&mut out, referer.as_str());
    out.append(",\"remote_addr\":");
    push_json_string(&mut out, addr.as_str());
    out.append(",\"remote_user\":");
    push_json_string(&mut out, user.as_str());
    out.append(",\"request\":");
    push_json_string(&mut out, request.as_str());
    out.append(",\"request_method\":");
    push_json_string(&mut out, method.as_str());
    out.append(",\"request_time\":0.0,\"request_uri\":");
    push_json_string(&mut out, path.as_str());
    out.append(",\"server_protocol\":");
    push_json_string(&mut out, protocol.as_str());
    out.append(",\"status\":");
    let status_digits = u64_to_string(status as u64);
    out.append(status_digits.as_str());
    out.append(",\"time_iso8601\":");
    push_json_string(&mut out, rfc3339);
    out.append(",\"time_local\":");
    push_json_string(&mut out, time.as_str());
    out.append(",\"user_agent\":");
    push_json_string(&mut out, agent.as_str());
    out.append("}");
    out
}

/// The span invariant that `combined_spans` guarantees.
pub open spec fn spans_ordered(sp: CombinedSpans, n: int) -> bool {
    sp.addr_end < sp.ident_end < sp.user_end && sp.user_end + 2 < sp.time_end && sp.time_end + 3
        < sp.method_end && sp.method_end < sp.path_end < sp.request_end && sp.request_end + 6
        < sp.body_end && sp.body_end + 2 <= sp.referer_end && sp.referer_end + 3 <= sp.agent_end < n
}

/// Reads `spec_body_value`.
fn body_value(chars: &Vec<char>, sp: CombinedSpans) -> (r: Option<Option<u64>>)
    requires
        spec_combined_spans(chars@) == Some(sp),
        spans_ordered(sp, chars@.len() as int),
    ensures
        r == match spec_body_value(chars@, sp) {
            Some(Some(b)) => Some(Some(b as u64)),
            Some(None) => Some(None::<u64>),
            None => None,
        },
        r matches Some(Some(b)) ==> spec_body_value(chars@, sp) == Some(Some(b as nat)),
{
    let body_start = sp.request_end + 6;
    if sp.body_end - body_start == 1 && chars[body_start] == '-' {
        assert(body_text(chars@, sp) =~= seq!['-']);
        Some(None)
    } else {
        let body_digits = string_from_range(chars, body_start, sp.body_end);
        proof {
            let b = body_text(chars@, sp);
            if b == seq!['-'] {
                assert(b.len() == 1);
                assert(b[0] == chars@[body_start as int]);
            }
        }
        match parse_u64(body_digits.as_str()) {
            Some(b) => Some(Some(b)),
            None => None,
        }
    }
}

/// Reads `spec_status_value`.
fn status_value(chars: &Vec<char>, sp: CombinedSpans) -> (r: Option<u16>)
    requires
        spans_ordered(sp, chars@.len() as int),
    ensures
        r matches Some(v) ==> spec_status_value(chars@, sp) == Some(v as nat),
        r is None ==> spec_status_value(chars@, sp) is None,
{
    let status_digits = string_from_range(chars, sp.request_end + 2, sp.request_end + 5);
    parse_u16(status_digits.as_str())
}

/// Parses a line in the nginx combined format.
fn parse_combined(line: &str) -> (r: Result<ParsedLine, ParseError>)
    requires
        !combined_time_overflows(line@),
    ensures
        outcome(r) == spec_parse_combined(line@),
{
    let chars = chars_of(line);
    let sp = match combined_spans(&chars) {
        Some(sp) => sp,
        None => return Err(ParseError::Combined),
    };
    let time = string_from_range(&chars, sp.user_end + 2, sp.time_end);
    let parts = match parse_date_time(time.as_str(), "%d/%b/%Y:%H:%M:%S %z") {
        Some(p) => p,
        None => return Err(ParseError::Timestamp(time)),
    };
    let body = match body_value(&chars, sp) {
        Some(b) => b,
        None => return Err(ParseError::Combined),
    };
    let status = match status_value(&chars, sp) {
        Some(st) => st,
        None => return Err(ParseError::Combined),
    };
    let nanos = match parts.nanos {
        Some(ns) => ns,
        None => return Err(ParseError::Timestamp(time)),
    };
    let record = combined_record_text(line, &chars, sp, parts.rfc3339.as_str(), status, body);
    let addr = string_from_range(&chars, 0, sp.addr_end);
    let path = string_from_range(&chars, sp.method_end + 1, sp.path_end);
    Ok(
        ParsedLine {
            timestamp_ns: i64_to_string(nanos),
            line: record,
            remote_addr: IpAddress::parse(addr.as_str()),
            request_path: Some(String::from_str(url_path(path.as_str()))),
            status: Some(status),
        },
    )
}

// ---------------------------------------------------------------------------
// JSON lines

/// A member of a JSON log object, as far as the parser reads it: a string,
/// an unsigned integer, or anything else.
#[derive(Debug)]
pub enum JsonScalar {
    Str(String),
    U64(u64),
    Other,
}

pub enum JsonScalarView {
    Str(Seq<char>),
    U64(u64),
    Other,
}

impl View for JsonScalar {
    type V = JsonScalarView;

    open spec fn view(&self) -> JsonScalarView {
        match self {
            JsonScalar::Str(s) => JsonScalarView::Str(s@),
            JsonScalar::U64(n) => JsonScalarView::U64(*n),
            JsonScalar::Other => JsonScalarView::Other,
        }
    }
}

pub open spec fn members_view(v: Seq<(String, JsonScalar)>) -> Seq<(Seq<char>, JsonScalarView)> {
    v.map_values(|m: (String, JsonScalar)| (m.0@, m.1@))
}

/// The members of the JSON value in a text, as serde_json reads it into a
/// `Value`: for an object, its members in key order with each string kept,
/// each number that `as_u64` reads kept as that integer, and every other
/// value marked as other; for any other JSON value, no members; `None` when
/// the text is not JSON.
pub uninterp spec fn spec_json_members(line: Seq<char>) -> Option<Seq<(Seq<char>, JsonScalarView)>>;

/// Reads a line with `serde_json::from_str::<Value>` and converts the top
/// level of the value; the result is named.
#[verifier::external_body]
fn json_members(line: &str) -> (r: Result<Vec<(String, JsonScalar)>, serde_json::Error>)
    ensures
        r matches Ok(v) ==> spec_json_members(line@) == Some(members_view(v@)),
        r is Err ==> spec_json_members(line@) is None,
{
    match serde_json::from_str::<serde_json::Value>(line) {
        Ok(serde_json::Value::Object(map)) => Ok(map.into_iter().map(|(key, value)| (key, match value {
            serde_json::Value::String(s) => JsonScalar::Str(s),
            serde_json::Value::Number(n) => match n.as_u64() {
                Some(u) => JsonScalar::U64(u),
                None => JsonScalar::Other,
            },
            _ => JsonScalar::Other,
        })).collect()),
        Ok(_) => Ok(Vec::new()),
        Err(e) => Err(e),
    }
}

/// The value of the first member with a key.
pub open spec fn json_get(members: Seq<(Seq<char>, JsonScalarView)>, key: Seq<char>) -> Option<
    JsonScalarView,
>
    decreases members.len(),
{
    if members.len() == 0 {
        None
    } else if members[0].0 == key {
        Some(members[0].1)
    } else {
        json_get(members.drop_first(), key)
    }
}

/// The string value of the first member with a key, if it is a string.
pub open spec fn json_get_str(members: Seq<(Seq<char>, JsonScalarView)>, key: Seq<char>) -> Option<
    Seq<char>,
> {
    match json_get(members, key) {
        Some(JsonScalarView::Str(s)) => Some(s),
        _ => None,
    }
}

fn lookup<'a>(members: &'a Vec<(String, JsonScalar)>, key: &str) -> (r: Option<&'a JsonScalar>)
    ensures
        match r {
            Some(v) => json_get(members_view(members@), key@) == Some(v@),
            None => json_get(members_view(members@), key@) is None,
        },
{
    let wanted = String::from_str(key);
    let mut i: usize = 0;
    assert(members_view(members@).subrange(0, members@.len() as int) =~= members_view(members@));
    while i < members.len()
        invariant
            i <= members@.len(),
            wanted@ == key@,
            json_get(members_view(members@), key@) == json_get(
                members_view(members@).subrange(i as int, members@.len() as int),
                key@,
            ),
        decreases members@.len() - i,
    {
        let ghost rest = members_view(members@).subrange(i as int, members@.len() as int);
        assert(rest.drop_first() =~= members_view(members@).subrange(i + 1, members@.len() as int));
        assert(rest[0] == (members@[i as int].0@, members@[i as int].1@));
        if members[i].0 == wanted {
            assert(rest.len() > 0 && rest[0].0 == key@);
            assert(json_get(rest, key@) == Some(rest[0].1));
            return Some(&members[i].1);
        }
        i = i + 1;
    }
    None
}

fn lookup_str<'a>(members: &'a Vec<(String, JsonScalar)>, key: &str) -> (r: Option<&'a String>)
    ensures
        match r {
            Some(v) => json_get_str(members_view(members@), key@) == Some(v@),
            None => json_get_str(members_view(members@), key@) is None,
        },
{
    match lookup(members, key) {
        Some(JsonScalar::Str(s)) => Some(s),
        _ => None,
    }
}

/// The status of a JSON log: an unsigned integer member `status` that fits
/// `u16`, or a `status` string that reads as one.
pub open spec fn spec_json_status(members: Seq<(Seq<char>, JsonScalarView)>) -> Option<u16> {
    match json_get(members, "status"@) {
        Some(JsonScalarView::U64(n)) => if n <= 65535 {
            Some(n as u16)
        } else {
            None
        },
        Some(JsonScalarView::Str(t)) => match unsigned_decimal_at_most(t, 65535) {
            Some(v) => Some(v as u16),
            None => None,
        },
        _ => None,
    }
}

fn json_status(members: &Vec<(String, JsonScalar)>) -> (r: Option<u16>)
    ensures
        r == spec_json_status(members_view(members@)),
{
    match lookup(members, "status") {
        Some(JsonScalar::U64(n)) => {
            if *n <= 65535 {
                Some(*n as u16)
            } else {
                None
            }
        },
        Some(JsonScalar::Str(t)) => parse_u16(t.as_str()),
        _ => None,
    }
}

/// The second of the white-space-separated words of a text.
pub open spec fn second_word(s: Seq<char>) -> Option<Seq<char>> {
    let w0 = skip_white(s, 0);
    let e0 = next_white(s, w0);
    let w1 = skip_white(s, e0);
    if w1 < s.len() {
        Some(s.subrange(w1, next_white(s, w1)))
    } else {
        None
    }
}

fn second_word_of(text: &str) -> (r: Option<String>)
    ensures
        match r {
            Some(w) => second_word(text@) == Some(w@),
            None => second_word(text@) is None,
        },
{
    let chars = chars_of(text);
    let w0 = skip_white_from(&chars, 0);
    proof { lemma_skip_white(chars@, 0); }
    let e0 = next_white_from(&chars, w0);
    proof { lemma_next_white(chars@, w0 as int); }
    let w1 = skip_white_from(&chars, e0);
    proof { lemma_skip_white(chars@, e0 as int); }
    if w1 < chars.len() {
        let e1 = next_white_from(&chars, w1);
        proof { lemma_next_white(chars@, w1 as int); }
        Some(string_from_range(&chars, w1, e1))
    } else {
        None
    }
}

/// The request path of a JSON log: the path of the first of `request_uri`,
/// `path` and `uri` that is a string, else the path of the second word of a
/// `request` string.
pub open spec fn spec_json_request_path(members: Seq<(Seq<char>, JsonScalarView)>) -> Option<
    Seq<char>,
> {
    if json_get_str(members, "request_uri"@) is Some {
        Some(spec_url_path(json_get_str(members, "request_uri"@)->Some_0))
    } else if json_get_str(members, "path"@) is Some {
        Some(spec_url_path(json_get_str(members, "path"@)->Some_0))
    } else if json_get_str(members, "uri"@) is Some {
        Some(spec_url_path(json_get_str(members, "uri"@)->Some_0))
    } else {
        match json_get_str(members, "request"@) {
            Some(request) => match second_word(request) {
                Some(target) => Some(spec_url_path(target)),
                None => None,
            },
            None => None,
        }
    }
}

fn json_request_path(members: &Vec<(String, JsonScalar)>) -> (r: Option<String>)
    ensures
        match r {
            Some(p) => spec_json_request_path(members_view(members@)) == Some(p@),
            None => spec_json_request_path(members_view(members@)) is None,
        },
{
    if let Some(raw) = lookup_str(members, "request_uri") {
        return Some(String::from_str(url_path(raw.as_str())));
    }
    if let Some(raw) = lookup_str(members, "path") {
        return Some(String::from_str(url_path(raw.as_str())));
    }
    if let Some(raw) = lookup_str(members, "uri") {
        return Some(String::from_str(url_path(raw.as_str())));
    }
    match lookup_str(members, "request") {
        Some(request) => match second_word_of(request.as_str()) {
            Some(target) => Some(String::from_str(url_path(target.as_str()))),
            None => None,
        },
        None => None,
    }
}

/// The remote address of a JSON log: the first of `remote_addr`, `remote_ip`
/// and `client_ip` that is a string holding an IP address.
pub open spec fn spec_json_remote_addr(members: Seq<(Seq<char>, JsonScalarView)>) -> Option<
    IpAddress,
> {
    let a = match json_get_str(members, "remote_addr"@) {
        Some(t) => spec_parse_ip_addr(t),
        None => None,
    };
    let b = match json_get_str(members, "remote_ip"@) {
        Some(t) => spec_parse_ip_addr(t),
        None => None,
    };
    let c = match json_get_str(members, "client_ip"@) {
        Some(t) => spec_parse_ip_addr(t),
        None => None,
    };
    if a is Some {
        a
    } else if b is Some {
        b
    } else {
        c
    }
}

fn address_member(members: &Vec<(String, JsonScalar)>, key: &str) -> (r: Option<IpAddress>)
    ensures
        r == match json_get_str(members_view(members@), key@) {
            Some(t) => spec_parse_ip_addr(t),
            None => None,
        },
{
    match lookup_str(members, key) {
        Some(raw) => IpAddress::parse(raw.as_str()),
        None => None,
    }
}

fn json_remote_addr(members: &Vec<(String, JsonScalar)>) -> (r: Option<IpAddress>)
    ensures
        r == spec_json_remote_addr(members_view(members@)),
{
    let a = address_member(members, "remote_addr");
    if a.is_some() {
        return a;
    }
    let b = address_member(members, "remote_ip");
    if b.is_some() {
        return b;
    }
    address_member(members, "client_ip")
}

/// The time text of a JSON log: the first of `time`, `time_local`,
/// `timestamp` and `@timestamp` that is a string.
pub open spec fn spec_json_time_text(members: Seq<(Seq<char>, JsonScalarView)>) -> Option<
    Seq<char>,
> {
    if json_get_str(members, "time"@) is Some {
        json_get_str(members, "time"@)
    } else if json_get_str(members, "time_local"@) is Some {
        json_get_str(members, "time_local"@)
    } else if json_get_str(members, "timestamp"@) is Some {
        json_get_str(members, "timestamp"@)
    } else {
        json_get_str(members, "@timestamp"@)
    }
}

/// The timestamp of a JSON log, read from its time text; `None` when it has
/// none.
pub open spec fn spec_json_timestamp(members: Seq<(Seq<char>, JsonScalarView)>) -> Option<
    Result<Seq<char>, ParseFailure>,
> {
    match spec_json_time_text(members) {
        Some(raw) => Some(spec_parse_timestamp(raw)),
        None => None,
    }
}

/// Whether a JSON line has a time text that lies beyond the nanosecond range
/// of `i64`.
pub open spec fn json_time_overflows(line: Seq<char>) -> bool {
    match spec_json_members(line) {
        Some(members) => match spec_json_time_text(members) {
            Some(raw) => time_text_overflows(raw),
            None => false,
        },
        None => false,
    }
}

/// Whether a line in a format has a time that lies beyond the nanosecond
/// range of `i64`.
pub open spec fn line_time_overflows(format: LogFormat, line: Seq<char>) -> bool {
    match format {
        LogFormat::Combined => combined_time_overflows(line),
        LogFormat::Json => json_time_overflows(line),
    }
}

fn json_time_text<'a>(members: &'a Vec<(String, JsonScalar)>) -> (r: Option<&'a String>)
    ensures
        match r {
            Some(t) => spec_json_time_text(members_view(members@)) == Some(t@),
            None => spec_json_time_text(members_view(members@)) is None,
        },
{
    if let Some(raw) = lookup_str(members, "time") {
        return Some(raw);
    }
    if let Some(raw) = lookup_str(members, "time_local") {
        return Some(raw);
    }
    if let Some(raw) = lookup_str(members, "timestamp") {
        return Some(raw);
    }
    lookup_str(members, "@timestamp")
}

/// What a JSON line parses to when the clock reads `now_ns` (`None`: beyond
/// the nanosecond range of `i64`).  The line is shipped as it is; a line with
/// no timestamp member is stamped with the clock.
pub open spec fn spec_parse_json(line: Seq<char>, now_ns: Option<i64>) -> Result<
    ParsedLineView,
    ParseFailure,
> {
    match spec_json_members(line) {
        None => Err(ParseFailure::Json),
        Some(members) => {
            let stamp = match spec_json_timestamp(members) {
                Some(t) => t,
                None => match now_ns {
                    Some(ns) => Ok(signed_decimal(ns as int)),
                    None => Err(ParseFailure::Timestamp(Seq::empty())),
                },
            };
            match stamp {
                Err(e) => Err(e),
                Ok(ts) => Ok(
                    ParsedLineView {
                        timestamp_ns: ts,
                        line: line,
                        remote_addr: spec_json_remote_addr(members),
                        request_path: spec_json_request_path(members),
                        status: spec_json_status(members),
                    },
                ),
            }
        },
    }
}

/// Parses a JSON log line, with `now_ns` as the clock's reading.
pub fn parse_json_at(line: &str, now_ns: Option<i64>) -> (r: Result<ParsedLine, ParseError>)
    requires
        !json_time_overflows(line@),
    ensures
        outcome(r) == spec_parse_json(line@, now_ns),
{
    let members = match json_members(line) {
        Ok(m) => m,
        Err(e) => return Err(ParseError::Json(e)),
    };
    let timestamp_ns = match json_time_text(&members) {
        Some(raw) => match parse_timestamp(raw.as_str()) {
            Ok(ts) => ts,
            Err(e) => return Err(e),
        },
        None => match now_ns {
            Some(ns) => i64_to_string(ns),
            None => return Err(ParseError::Timestamp(String::new())),
        },
    };
    Ok(
        ParsedLine {
            timestamp_ns,
            request_path: json_request_path(&members),
            line: String::from_str(line),
            remote_addr: json_remote_addr(&members),
            status: json_status(&members),
        },
    )
}

/// Parses a log line in the given format.  A JSON line without a timestamp
/// member is stamped with the current time (and reported as a timestamp
/// error should the clock lie beyond the range of nanosecond timestamps).
pub fn parse_line(format: LogFormat, line: &str) -> (r: Result<ParsedLine, ParseError>)
    requires
        !line_time_overflows(format, line@),
    ensures
        format == LogFormat::Combined ==> outcome(r) == spec_parse_combined(line@),
        format == LogFormat::Json ==> exists|now_ns: Option<i64>|
            outcome(r) == #[trigger] spec_parse_json(line@, now_ns),
{
    match format {
        LogFormat::Combined => parse_combined(line),
        LogFormat::Json => {
            let now_ns = current_time_nanos();
            let r = parse_json_at(line, now_ns);
            assert(outcome(r) == spec_parse_json(line@, now_ns));
            r
        },
    }
}

/// Decides `combined_time_overflows`.
fn combined_overflows(line: &str) -> (r: bool)
    ensures
        r == combined_time_overflows(line@),
{
    let chars = chars_of(line);
    let sp = match combined_spans(&chars) {
        Some(sp) => sp,
        None => return false,
    };
    let time = string_from_range(&chars, sp.user_end + 2, sp.time_end);
    match parse_date_time(time.as_str(), "%d/%b/%Y:%H:%M:%S %z") {
        Some(parts) => parts.nanos.is_none() && body_value(&chars, sp).is_some() && status_value(
            &chars,
            sp,
        ).is_some(),
        None => false,
    }
}

/// Decides `json_time_overflows`.
fn json_overflows(line: &str) -> (r: bool)
    ensures
        r == json_time_overflows(line@),
{
    let members = match json_members(line) {
        Ok(m) => m,
        Err(_) => return false,
    };
    match json_time_text(&members) {
        Some(raw) => match parse_rfc3339_nanos(raw.as_str()) {
            Some(nanos) => nanos.is_none(),
            None => match parse_date_time(raw.as_str(), "%d/%b/%Y:%H:%M:%S %z") {
                Some(parts) => parts.nanos.is_none(),
                None => false,
            },
        },
        None => false,
    }
}

/// Whether a line has a time beyond the nanosecond range of `i64` (after the
/// year 2262), which `parse_line` does not take.
pub fn time_overflows(format: LogFormat, line: &str) -> (r: bool)
    ensures
        r == line_time_overflows(format, line@),
{
    match format {
        LogFormat::Combined => combined_overflows(line),
        LogFormat::Json => json_overflows(line),
    }
}

/// Parses a log line in the given format, or gives `None` for a line whose
/// time lies beyond the nanosecond range of `i64`.
pub fn try_parse_line(format: LogFormat, line: &str) -> (r: Option<Result<ParsedLine, ParseError>>)
    ensures
        r is None <==> line_time_overflows(format, line@),
        format == LogFormat::Combined ==> (r matches Some(p) ==> outcome(p) == spec_parse_combined(
            line@,
        )),
        format == LogFormat::Json ==> (r matches Some(p) ==> exists|now_ns: Option<i64>|
            outcome(p) == #[trigger] spec_parse_json(line@, now_ns)),
{
    if time_overflows(format, line) {
        None
    } else {
        Some(parse_line(format, line))
    }
}

/// What a parsed combined-format line holds, field by field, with the fields
/// located at `sp`.
pub open spec fn combined_fields_hold(s: Seq<char>, sp: CombinedSpans, p: ParsedLineView) -> bool {
    let time = time_text(s, sp);
    &&& spec_nginx_time_to_ns(time) == Ok::<Seq<char>, ParseFailure>(p.timestamp_ns)
    &&& p.status is Some
    &&& spec_status_value(s, sp) == Some(p.status->Some_0 as nat)
    &&& p.request_path == Some(spec_url_path(path_text(s, sp)))
    &&& p.remote_addr == spec_parse_ip_addr(addr_text(s, sp))
    &&& spec_body_value(s, sp) is Some
    &&& p.line == combined_record(
        s,
        sp,
        spec_chrono_parse_from_str(time, nginx_time_format())->Some_0.1,
        p.status->Some_0 as nat,
        spec_body_value(s, sp)->Some_0,
    )
}

/// A combined-format line that parses is read field by field: its timestamp
/// is what `nginx_time_to_ns` gives its time, its status is its three status
/// digits, its request path is the path of its request target, its remote
/// address is its address text read as an IP address, and its line is the
/// record that `combined_record` builds of its fields (where `request` is
/// method, target and protocol joined by spaces, `request_uri` the target,
/// `args` its query string, `body_bytes_sent` the body size or `null` for
/// `-`, and `message` the line itself).
pub proof fn law_combined_fields(s: Seq<char>)
    requires
        spec_parse_combined(s) is Ok,
    ensures
        spec_combined_spans(s) is Some,
        combined_fields_hold(s, spec_combined_spans(s)->Some_0, spec_parse_combined(s)->Ok_0),
{
}

/// A request URI is its path, then `?` and its query string when it has a
/// `?`.
pub proof fn law_uri_splits_at_question_mark(uri: Seq<char>)
    ensures
        find_char(uri, 0, '?') < uri.len() ==> uri == spec_url_path(uri) + seq!['?']
            + spec_query_string(uri),
        find_char(uri, 0, '?') == uri.len() ==> spec_url_path(uri) == uri && spec_query_string(
            uri,
        ).len() == 0,
{
    lemma_find_char(uri, 0, '?');
    let q = find_char(uri, 0, '?');
    if q < uri.len() {
        assert(uri =~= uri.subrange(0, q) + seq!['?'] + uri.subrange(q + 1, uri.len() as int));
    } else {
        assert(uri.subrange(0, q) =~= uri);
    }
}

/// The timestamp that a JSON line's parse gives, or its error.
pub open spec fn json_stamp(line: Seq<char>, now_ns: Option<i64>) -> Result<Seq<char>, ParseFailure> {
    match spec_parse_json(line, now_ns) {
        Ok(p) => Ok(p.timestamp_ns),
        Err(e) => Err(e),
    }
}

/// The timestamp of a JSON object line is read from the first of its members
/// `time`, `time_local`, `timestamp` and `@timestamp` that is a string,
/// whatever the clock reads; only a line with none of them takes the clock's
/// reading.
pub proof fn law_json_timestamp_source(line: Seq<char>, now_ns: Option<i64>)
    requires
        spec_json_members(line) is Some,
    ensures
        ({
            let m = spec_json_members(line)->Some_0;
            &&& json_get_str(m, "time"@) matches Some(t) ==> json_stamp(line, now_ns)
                == spec_parse_timestamp(t)
            &&& json_get_str(m, "time_local"@) matches Some(t) ==> (json_get_str(m, "time"@) is None
                ==> json_stamp(line, now_ns) == spec_parse_timestamp(t))
            &&& json_get_str(m, "timestamp"@) matches Some(t) ==> (json_get_str(m, "time"@) is None
                && json_get_str(m, "time_local"@) is None ==> json_stamp(line, now_ns)
                == spec_parse_timestamp(t))
            &&& json_get_str(m, "@timestamp"@) matches Some(t) ==> (json_get_str(m, "time"@) is None
                && json_get_str(m, "time_local"@) is None && json_get_str(m, "timestamp"@) is None
                ==> json_stamp(line, now_ns) == spec_parse_timestamp(t))
            &&& json_get_str(m, "time"@) is None && json_get_str(m, "time_local"@) is None
                && json_get_str(m, "timestamp"@) is None && json_get_str(m, "@timestamp"@) is None
                ==> json_stamp(line, now_ns) == match now_ns {
                Some(ns) => Ok::<Seq<char>, ParseFailure>(signed_decimal(ns as int)),
                None => Err(ParseFailure::Timestamp(Seq::empty())),
            }
        }),
{
}

/// Whether `piece` occurs in `text`.
pub open spec fn occurs_in(piece: Seq<char>, text: Seq<char>) -> bool {
    exists|pre: Seq<char>, post: Seq<char>| text == pre + piece + post
}

proof fn lemma_occurs_at_end(piece: Seq<char>, x: Seq<char>, a: Seq<char>, b: Seq<char>)
    requires
        piece == a + b,
    ensures
        occurs_in(piece, x + a + b),
{
    assert(x + a + b =~= x + piece + Seq::<char>::empty());
}

proof fn lemma_occurs_in_extend(piece: Seq<char>, x: Seq<char>, y: Seq<char>)
    requires
        occurs_in(piece, x),
    ensures
        occurs_in(piece, x + y),
{
    let (pre, post) = choose|pre: Seq<char>, post: Seq<char>| x == pre + piece + post;
    assert(x + y =~= pre + piece + (post + y));
}

proof fn lemma_record_request(
    s: Seq<char>,
    sp: CombinedSpans,
    rfc3339: Seq<char>,
    status: nat,
    body: Option<nat>,
)
    ensures
        ({
            let method = method_text(s, sp);
            let path = path_text(s, sp);
            let protocol = protocol_text(s, sp);
            occurs_in(",\"request\":"@ + json_quote(method + seq![' '] + path + seq![' '] + protocol), combined_record(s, sp, rfc3339, status, body))
        }),
{
    let method = method_text(s, sp);
    let path = path_text(s, sp);
    let protocol = protocol_text(s, sp);
    let referer = spec_dash_to_empty(referer_text(s, sp));
    let agent = agent_text(s, sp);
    let x0 = "{\"args\":"@;
    let x1 = x0 + json_quote(spec_query_string(path));
    let x2 = x1 + ",\"body_bytes_sent\":"@;
    let x3 = x2 + json_number(body);
    let x4 = x3 + ",\"geoip_city_name\":\"\",\"geoip_country_code\":\"\",\"geoip_country_iso3\":\"\",\"geoip_latitude\":null,\"geoip_longitude\":null,\"http_referer\":"@;
    let x5 = x4 + json_quote(referer);
    let x6 = x5 + ",\"http_user_agent\":"@;
    let x7 = x6 + json_quote(agent);
    let x8 = x7 + ",\"message\":"@;
    let x9 = x8 + json_quote(s);
    let x10 = x9 + ",\"method\":"@;
    let x11 = x10 + json_quote(method);
    let x12 = x11 + ",\"path\":"@;
    let x13 = x12 + json_quote(path);
    let x14 = x13 + ",\"protocol\":"@;
    let x15 = x14 + json_quote(protocol);
    let x16 = x15 + ",\"referer\":"@;
    let x17 = x16 + json_quote(referer);
    let x18 = x17 + ",\"remote_addr\":"@;
    let x19 = x18 + json_quote(addr_text(s, sp));
    let x20 = x19 + ",\"remote_user\":"@;
    let x21 = x20 + json_quote(spec_dash_to_empty(user_text(s, sp)));
    let x22 = x21 + ",\"request\":"@;
    let x23 = x22 + json_quote(method + seq![' '] + path + seq![' '] + protocol);
    let x24 = x23 + ",\"request_method\":"@;
    let x25 = x24 + json_quote(method);
    let x26 = x25 + ",\"request_time\":0.0,\"request_uri\":"@;
    let x27 = x26 + json_quote(path);
    let x28 = x27 + ",\"server_protocol\":"@;
    let x29 = x28 + json_quote(protocol);
    let x30 = x29 + ",\"status\":"@;
    let x31 = x30 + decimal(status);
    let x32 = x31 + ",\"time_iso8601\":"@;
    let x33 = x32 + json_quote(rfc3339);
    let x34 = x33 + ",\"time_local\":"@;
    let x35 = x34 + json_quote(time_text(s, sp));
    let x36 = x35 + ",\"user_agent\":"@;
    let x37 = x36 + json_quote(agent);
    let x38 = x37 + "}"@;
    assert(combined_record(s, sp, rfc3339, status, body) == x38);
    let piece = ",\"request\":"@ + json_quote(method + seq![' '] + path + seq![' '] + protocol);
    lemma_occurs_at_end(piece, x21, ",\"request\":"@, json_quote(method + seq![' '] + path + seq![' '] + protocol));
    lemma_occurs_in_extend(piece, x23, ",\"request_method\":"@);
    lemma_occurs_in_extend(piece, x24, json_quote(method));
    lemma_occurs_in_extend(piece, x25, ",\"request_time\":0.0,\"request_uri\":"@);
    lemma_occurs_in_extend(piece, x26, json_quote(path));
    lemma_occurs_in_extend(piece, x27, ",\"server_protocol\":"@);
    lemma_occurs_in_extend(piece, x28, json_quote(protocol));
    lemma_occurs_in_extend(piece, x29, ",\"status\":"@);
    lemma_occurs_in_extend(piece, x30, decimal(status));
    lemma_occurs_in_extend(piece, x31, ",\"time_iso8601\":"@);
    lemma_occurs_in_extend(piece, x32, json_quote(rfc3339));
    lemma_occurs_in_extend(piece, x33, ",\"time_local\":"@);
    lemma_occurs_in_extend(piece, x34, json_quote(time_text(s, sp)));
    lemma_occurs_in_extend(piece, x35, ",\"user_agent\":"@);
    lemma_occurs_in_extend(piece, x36, json_quote(agent));
    lemma_occurs_in_extend(piece, x37, "}"@);
}

proof fn lemma_record_message(
    s: Seq<char>,
    sp: CombinedSpans,
    rfc3339: Seq<char>,
    status: nat,
    body: Option<nat>,
)
    ensures
        ({
            let method = method_text(s, sp);
            let path = path_text(s, sp);
            let protocol = protocol_text(s, sp);
            occurs_in(",\"message\":"@ + json_quote(s), combined_record(s, sp, rfc3339, status, body))
        }),
{
    let method = method_text(s, sp);
    let path = path_text(s, sp);
    let protocol = protocol_text(s, sp);
    let referer = spec_dash_to_empty(referer_text(s, sp));
    let agent = agent_text(s, sp);
    let x0 = "{\"args\":"@;
    let x1 = x0 + json_quote(spec_query_string(path));
    let x2 = x1 + ",\"body_bytes_sent\":"@;
    let x3 = x2 + json_number(body);
    let x4 = x3 + ",\"geoip_city_name\":\"\",\"geoip_country_code\":\"\",\"geoip_country_iso3\":\"\",\"geoip_latitude\":null,\"geoip_longitude\":null,\"http_referer\":"@;
    let x5 = x4 + json_quote(referer);
    let x6 = x5 + ",\"http_user_agent\":"@;
    let x7 = x6 + json_quote(agent);
    let x8 = x7 + ",\"message\":"@;
    let x9 = x8 + json_quote(s);
    let x10 = x9 + ",\"method\":"@;
    let x11 = x10 + json_quote(method);
    let x12 = x11 + ",\"path\":"@;
    let x13 = x12 + json_quote(path);
    let x14 = x13 + ",\"protocol\":"@;
    let x15 = x14 + json_quote(protocol);
    let x16 = x15 + ",\"referer\":"@;
    let x17 = x16 + json_quote(referer);
    let x18 = x17 + ",\"remote_addr\":"@;
    let x19 = x18 + json_quote(addr_text(s, sp));
    let x20 = x19 + ",\"remote_user\":"@;
    let x21 = x20 + json_quote(spec_dash_to_empty(user_text(s, sp)));
    let x22 = x21 + ",\"request\":"@;
    let x23 = x22 + json_quote(method + seq![' '] + path + seq![' '] + protocol);
    let x24 = x23 + ",\"request_method\":"@;
    let x25 = x24 + json_quote(method);
    let x26 = x25 + ",\"request_time\":0.0,\"request_uri\":"@;
    let x27 = x26 + json_quote(path);
    let x28 = x27 + ",\"server_protocol\":"@;
    let x29 = x28 + json_quote(protocol);
    let x30 = x29 + ",\"status\":"@;
    let x31 = x30 + decimal(status);
    let x32 = x31 + ",\"time_iso8601\":"@;
    let x33 = x32 + json_quote(rfc3339);
    let x34 = x33 + ",\"time_local\":"@;
    let x35 = x34 + json_quote(time_text(s, sp));
    let x36 = x35 + ",\"user_agent\":"@;
    let x37 = x36 + json_quote(agent);
    let x38 = x37 + "}"@;
    assert(combined_record(s, sp, rfc3339, status, body) == x38);
    let piece = ",\"message\":"@ + json_quote(s);
    lemma_occurs_at_end(piece, x7, ",\"message\":"@, json_quote(s));
    lemma_occurs_in_extend(piece, x9, ",\"method\":"@);
    lemma_occurs_in_extend(piece, x10, json_quote(method));
    lemma_occurs_in_extend(piece, x11, ",\"path\":"@);
    lemma_occurs_in_extend(piece, x12, json_quote(path));
    lemma_occurs_in_extend(piece, x13, ",\"protocol\":"@);
    lemma_occurs_in_extend(piece, x14, json_quote(protocol));
    lemma_occurs_in_extend(piece, x15, ",\"referer\":"@);
    lemma_occurs_in_extend(piece, x16, json_quote(referer));
    lemma_occurs_in_extend(piece, x17, ",\"remote_addr\":"@);
    lemma_occurs_in_extend(piece, x18, json_quote(addr_text(s, sp)));
    lemma_occurs_in_extend(piece, x19, ",\"remote_user\":"@);
    lemma_occurs_in_extend(piece, x20, json_quote(spec_dash_to_empty(user_text(s, sp))));
    lemma_occurs_in_extend(piece, x21, ",\"request\":"@);
    lemma_occurs_in_extend(piece, x22, json_quote(method + seq![' '] + path + seq![' '] + protocol));
    lemma_occurs_in_extend(piece, x23, ",\"request_method\":"@);
    lemma_occurs_in_extend(piece, x24, json_quote(method));
    lemma_occurs_in_extend(piece, x25, ",\"request_time\":0.0,\"request_uri\":"@);
    lemma_occurs_in_extend(piece, x26, json_quote(path));
    lemma_occurs_in_extend(piece, x27, ",\"server_protocol\":"@);
    lemma_occurs_in_extend(piece, x28, json_quote(protocol));
    lemma_occurs_in_extend(piece, x29, ",\"status\":"@);
    lemma_occurs_in_extend(piece, x30, decimal(status));
    lemma_occurs_in_extend(piece, x31, ",\"time_iso8601\":"@);
    lemma_occurs_in_extend(piece, x32, json_quote(rfc3339));
    lemma_occurs_in_extend(piece, x33, ",\"time_local\":"@);
    lemma_occurs_in_extend(piece, x34, json_quote(time_text(s, sp)));
    lemma_occurs_in_extend(piece, x35, ",\"user_agent\":"@);
    lemma_occurs_in_extend(piece, x36, json_quote(agent));
    lemma_occurs_in_extend(piece, x37, "}"@);
}

proof fn lemma_record_request_uri(
    s: Seq<char>,
    sp: CombinedSpans,
    rfc3339: Seq<char>,
    status: nat,
    body: Option<nat>,
)
    ensures
        ({
            let method = method_text(s, sp);
            let path = path_text(s, sp);
            let protocol = protocol_text(s, sp);
            occurs_in(",\"request_time\":0.0,\"request_uri\":"@ + json_quote(path), combined_record(s, sp, rfc3339, status, body))
        }),
{
    let method = method_text(s, sp);
    let path = path_text(s, sp);
    let protocol = protocol_text(s, sp);
    let referer = spec_dash_to_empty(referer_text(s, sp));
    let agent = agent_text(s, sp);
    let x0 = "{\"args\":"@;
    let x1 = x0 + json_quote(spec_query_string(path));
    let x2 = x1 + ",\"body_bytes_sent\":"@;
    let x3 = x2 + json_number(body);
    let x4 = x3 + ",\"geoip_city_name\":\"\",\"geoip_country_code\":\"\",\"geoip_country_iso3\":\"\",\"geoip_latitude\":null,\"geoip_longitude\":null,\"http_referer\":"@;
    let x5 = x4 + json_quote(referer);
    let x6 = x5 + ",\"http_user_agent\":"@;
    let x7 = x6 + json_quote(agent);
    let x8 = x7 + ",\"message\":"@;
    let x9 = x8 + json_quote(s);
    let x10 = x9 + ",\"method\":"@;
    let x11 = x10 + json_quote(method);
    let x12 = x11 + ",\"path\":"@;
    let x13 = x12 + json_quote(path);
    let x14 = x13 + ",\"protocol\":"@;
    let x15 = x14 + json_quote(protocol);
    let x16 = x15 + ",\"referer\":"@;
    let x17 = x16 + json_quote(referer);
    let x18 = x17 + ",\"remote_addr\":"@;
    let x19 = x18 + json_quote(addr_text(s, sp));
    let x20 = x19 + ",\"remote_user\":"@;
    let x21 = x20 + json_quote(spec_dash_to_empty(user_text(s, sp)));
    let x22 = x21 + ",\"request\":"@;
    let x23 = x22 + json_quote(method + seq![' '] + path + seq![' '] + protocol);
    let x24 = x23 + ",\"request_method\":"@;
    let x25 = x24 + json_quote(method);
    let x26 = x25 + ",\"request_time\":0.0,\"request_uri\":"@;
    let x27 = x26 + json_quote(path);
    let x28 = x27 + ",\"server_protocol\":"@;
    let x29 = x28 + json_quote(protocol);
    let x30 = x29 + ",\"status\":"@;
    let x31 = x30 + decimal(status);
    let x32 = x31 + ",\"time_iso8601\":"@;
    let x33 = x32 + json_quote(rfc3339);
    let x34 = x33 + ",\"time_local\":"@;
    let x35 = x34 + json_quote(time_text(s, sp));
    let x36 = x35 + ",\"user_agent\":"@;
    let x37 = x36 + json_quote(agent);
    let x38 = x37 + "}"@;
    assert(combined_record(s, sp, rfc3339, status, body) == x38);
    let piece = ",\"request_time\":0.0,\"request_uri\":"@ + json_quote(path);
    lemma_occurs_at_end(piece, x25, ",\"request_time\":0.0,\"request_uri\":"@, json_quote(path));
    lemma_occurs_in_extend(piece, x27, ",\"server_protocol\":"@);
    lemma_occurs_in_extend(piece, x28, json_quote(protocol));
    lemma_occurs_in_extend(piece, x29, ",\"status\":"@);
    lemma_occurs_in_extend(piece, x30, decimal(status));
    lemma_occurs_in_extend(piece, x31, ",\"time_iso8601\":"@);
    lemma_occurs_in_extend(piece, x32, json_quote(rfc3339));
    lemma_occurs_in_extend(piece, x33, ",\"time_local\":"@);
    lemma_occurs_in_extend(piece, x34, json_quote(time_text(s, sp)));
    lemma_occurs_in_extend(piece, x35, ",\"user_agent\":"@);
    lemma_occurs_in_extend(piece, x36, json_quote(agent));
    lemma_occurs_in_extend(piece, x37, "}"@);
}

proof fn lemma_record_args(
    s: Seq<char>,
    sp: CombinedSpans,
    rfc3339: Seq<char>,
    status: nat,
    body: Option<nat>,
)
    ensures
        ({
            let method = method_text(s, sp);
            let path = path_text(s, sp);
            let protocol = protocol_text(s, sp);
            occurs_in("{\"args\":"@ + json_quote(spec_query_string(path)), combined_record(s, sp, rfc3339, status, body))
        }),
{
    let method = method_text(s, sp);
    let path = path_text(s, sp);
    let protocol = protocol_text(s, sp);
    let referer = spec_dash_to_empty(referer_text(s, sp));
    let agent = agent_text(s, sp);
    let x0 = "{\"args\":"@;
    let x1 = x0 + json_quote(spec_query_string(path));
    let x2 = x1 + ",\"body_bytes_sent\":"@;
    let x3 = x2 + json_number(body);
    let x4 = x3 + ",\"geoip_city_name\":\"\",\"geoip_country_code\":\"\",\"geoip_country_iso3\":\"\",\"geoip_latitude\":null,\"geoip_longitude\":null,\"http_referer\":"@;
    let x5 = x4 + json_quote(referer);
    let x6 = x5 + ",\"http_user_agent\":"@;
    let x7 = x6 + json_quote(agent);
    let x8 = x7 + ",\"message\":"@;
    let x9 = x8 + json_quote(s);
    let x10 = x9 + ",\"method\":"@;
    let x11 = x10 + json_quote(method);
    let x12 = x11 + ",\"path\":"@;
    let x13 = x12 + json_quote(path);
    let x14 = x13 + ",\"protocol\":"@;
    let x15 = x14 + json_quote(protocol);
    let x16 = x15 + ",\"referer\":"@;
    let x17 = x16 + json_quote(referer);
    let x18 = x17 + ",\"remote_addr\":"@;
    let x19 = x18 + json_quote(addr_text(s, sp));
    let x20 = x19 + ",\"remote_user\":"@;
    let x21 = x20 + json_quote(spec_dash_to_empty(user_text(s, sp)));
    let x22 = x21 + ",\"request\":"@;
    let x23 = x22 + json_quote(method + seq![' '] + path + seq![' '] + protocol);
    let x24 = x23 + ",\"request_method\":"@;
    let x25 = x24 + json_quote(method);
    let x26 = x25 + ",\"request_time\":0.0,\"request_uri\":"@;
    let x27 = x26 + json_quote(path);
    let x28 = x27 + ",\"server_protocol\":"@;
    let x29 = x28 + json_quote(protocol);
    let x30 = x29 + ",\"status\":"@;
    let x31 = x30 + decimal(status);
    let x32 = x31 + ",\"time_iso8601\":"@;
    let x33 = x32 + json_quote(rfc3339);
    let x34 = x33 + ",\"time_local\":"@;
    let x35 = x34 + json_quote(time_text(s, sp));
    let x36 = x35 + ",\"user_agent\":"@;
    let x37 = x36 + json_quote(agent);
    let x38 = x37 + "}"@;
    assert(combined_record(s, sp, rfc3339, status, body) == x38);
    let piece = "{\"args\":"@ + json_quote(spec_query_string(path));
    assert(x1 =~= Seq::<char>::empty() + piece + Seq::<char>::empty());
    lemma_occurs_in_extend(piece, x1, ",\"body_bytes_sent\":"@);
    lemma_occurs_in_extend(piece, x2, json_number(body));
    lemma_occurs_in_extend(piece, x3, ",\"geoip_city_name\":\"\",\"geoip_country_code\":\"\",\"geoip_country_iso3\":\"\",\"geoip_latitude\":null,\"geoip_longitude\":null,\"http_referer\":"@);
    lemma_occurs_in_extend(piece, x4, json_quote(referer));
    lemma_occurs_in_extend(piece, x5, ",\"http_user_agent\":"@);
    lemma_occurs_in_extend(piece, x6, json_quote(agent));
    lemma_occurs_in_extend(piece, x7, ",\"message\":"@);
    lemma_occurs_in_extend(piece, x8, json_quote(s));
    lemma_occurs_in_extend(piece, x9, ",\"method\":"@);
    lemma_occurs_in_extend(piece, x10, json_quote(method));
    lemma_occurs_in_extend(piece, x11, ",\"path\":"@);
    lemma_occurs_in_extend(piece, x12, json_quote(path));
    lemma_occurs_in_extend(piece, x13, ",\"protocol\":"@);
    lemma_occurs_in_extend(piece, x14, json_quote(protocol));
    lemma_occurs_in_extend(piece, x15, ",\"referer\":"@);
    lemma_occurs_in_extend(piece, x16, json_quote(referer));
    lemma_occurs_in_extend(piece, x17, ",\"remote_addr\":"@);
    lemma_occurs_in_extend(piece, x18, json_quote(addr_text(s, sp)));
    lemma_occurs_in_extend(piece, x19, ",\"remote_user\":"@);
    lemma_occurs_in_extend(piece, x20, json_quote(spec_dash_to_empty(user_text(s, sp))));
    lemma_occurs_in_extend(piece, x21, ",\"request\":"@);
    lemma_occurs_in_extend(piece, x22, json_quote(method + seq![' '] + path + seq![' '] + protocol));
    lemma_occurs_in_extend(piece, x23, ",\"request_method\":"@);
    lemma_occurs_in_extend(piece, x24, json_quote(method));
    lemma_occurs_in_extend(piece, x25, ",\"request_time\":0.0,\"request_uri\":"@);
    lemma_occurs_in_extend(piece, x26, json_quote(path));
    lemma_occurs_in_extend(piece, x27, ",\"server_protocol\":"@);
    lemma_occurs_in_extend(piece, x28, json_quote(protocol));
    lemma_occurs_in_extend(piece, x29, ",\"status\":"@);
    lemma_occurs_in_extend(piece, x30, decimal(status));
    lemma_occurs_in_extend(piece, x31, ",\"time_iso8601\":"@);
    lemma_occurs_in_extend(piece, x32, json_quote(rfc3339));
    lemma_occurs_in_extend(piece, x33, ",\"time_local\":"@);
    lemma_occurs_in_extend(piece, x34, json_quote(time_text(s, sp)));
    lemma_occurs_in_extend(piece, x35, ",\"user_agent\":"@);
    lemma_occurs_in_extend(piece, x36, json_quote(agent));
    lemma_occurs_in_extend(piece, x37, "}"@);
}

proof fn lemma_record_status(
    s: Seq<char>,
    sp: CombinedSpans,
    rfc3339: Seq<char>,
    status: nat,
    body: Option<nat>,
)
    ensures
        ({
            let method = method_text(s, sp);
            let path = path_text(s, sp);
            let protocol = protocol_text(s, sp);
            occurs_in(",\"status\":"@ + decimal(status), combined_record(s, sp, rfc3339, status, body))
        }),
{
    let method = method_text(s, sp);
    let path = path_text(s, sp);
    let protocol = protocol_text(s, sp);
    let referer = spec_dash_to_empty(referer_text(s, sp));
    let agent = agent_text(s, sp);
    let x0 = "{\"args\":"@;
    let x1 = x0 + json_quote(spec_query_string(path));
    let x2 = x1 + ",\"body_bytes_sent\":"@;
    let x3 = x2 + json_number(body);
    let x4 = x3 + ",\"geoip_city_name\":\"\",\"geoip_country_code\":\"\",\"geoip_country_iso3\":\"\",\"geoip_latitude\":null,\"geoip_longitude\":null,\"http_referer\":"@;
    let x5 = x4 + json_quote(referer);
    let x6 = x5 + ",\"http_user_agent\":"@;
    let x7 = x6 + json_quote(agent);
    let x8 = x7 + ",\"message\":"@;
    let x9 = x8 + json_quote(s);
    let x10 = x9 + ",\"method\":"@;
    let x11 = x10 + json_quote(method);
    let x12 = x11 + ",\"path\":"@;
    let x13 = x12 + json_quote(path);
    let x14 = x13 + ",\"protocol\":"@;
    let x15 = x14 + json_quote(protocol);
    let x16 = x15 + ",\"referer\":"@;
    let x17 = x16 + json_quote(referer);
    let x18 = x17 + ",\"remote_addr\":"@;
    let x19 = x18 + json_quote(addr_text(s, sp));
    let x20 = x19 + ",\"remote_user\":"@;
    let x21 = x20 + json_quote(spec_dash_to_empty(user_text(s, sp)));
    let x22 = x21 + ",\"request\":"@;
    let x23 = x22 + json_quote(method + seq![' '] + path + seq![' '] + protocol);
    let x24 = x23 + ",\"request_method\":"@;
    let x25 = x24 + json_quote(method);
    let x26 = x25 + ",\"request_time\":0.0,\"request_uri\":"@;
    let x27 = x26 + json_quote(path);
    let x28 = x27 + ",\"server_protocol\":"@;
    let x29 = x28 + json_quote(protocol);
    let x30 = x29 + ",\"status\":"@;
    let x31 = x30 + decimal(status);
    let x32 = x31 + ",\"time_iso8601\":"@;
    let x33 = x32 + json_quote(rfc3339);
    let x34 = x33 + ",\"time_local\":"@;
    let x35 = x34 + json_quote(time_text(s, sp));
    let x36 = x35 + ",\"user_agent\":"@;
    let x37 = x36 + json_quote(agent);
    let x38 = x37 + "}"@;
    assert(combined_record(s, sp, rfc3339, status, body) == x38);
    let piece = ",\"status\":"@ + decimal(status);
    lemma_occurs_at_end(piece, x29, ",\"status\":"@, decimal(status));
    lemma_occurs_in_extend(piece, x31, ",\"time_iso8601\":"@);
    lemma_occurs_in_extend(piece, x32, json_quote(rfc3339));
    lemma_occurs_in_extend(piece, x33, ",\"time_local\":"@);
    lemma_occurs_in_extend(piece, x34, json_quote(time_text(s, sp)));
    lemma_occurs_in_extend(piece, x35, ",\"user_agent\":"@);
    lemma_occurs_in_extend(piece, x36, json_quote(agent));
    lemma_occurs_in_extend(piece, x37, "}"@);
}

/// The request of a combined-format line, between its quotes, is its method,
/// a space, its target, a space and its protocol.
proof fn lemma_spans_request(s: Seq<char>, sp: CombinedSpans)
    requires
        spec_combined_spans(s) == Some(sp),
        s.len() <= usize::MAX,
    ensures
        s[sp.time_end + 2] == '"' && s[sp.request_end as int] == '"',
        s.subrange(sp.time_end + 3, sp.request_end as int) == method_text(s, sp) + seq![' ']
            + path_text(s, sp) + seq![' '] + protocol_text(s, sp),
{
    let m1 = sp.method_end as int;
    let q = sp.request_end as int;
    let k = sp.path_end as int;
    lemma_last_char_in(s, m1 + 1, q - 1, ' ');
    lemma_find_char(s, m1 + 1, '"');
    assert(s.subrange(sp.time_end + 3, q) =~= method_text(s, sp) + seq![' '] + path_text(s, sp)
        + seq![' '] + protocol_text(s, sp));
}

/// The record shipped for a combined-format line holds the line's request as
/// written between its quotes: the `request` member is that text, which is
/// the method, a space, the whole request target (query string included) and
/// a space and the protocol; the `request_uri` member is the whole target,
/// `args` its query string, `message` the line itself and `status` its
/// status.
pub proof fn law_combined_record_members(s: Seq<char>)
    requires
        spec_parse_combined(s) is Ok,
        s.len() <= usize::MAX,
    ensures
        spec_combined_spans(s) is Some,
        ({
            let sp = spec_combined_spans(s)->Some_0;
            let line = spec_parse_combined(s)->Ok_0.line;
            let request = s.subrange(sp.time_end + 3, sp.request_end as int);
            let target = s.subrange(sp.method_end + 1, sp.path_end as int);
            &&& s[sp.time_end + 2] == '"' && s[sp.request_end as int] == '"'
            &&& exists|method: Seq<char>, protocol: Seq<char>| request == method + seq![' '] + target
                + seq![' '] + protocol
            &&& occurs_in(",\"request\":"@ + json_quote(request), line)
            &&& occurs_in(",\"request_time\":0.0,\"request_uri\":"@ + json_quote(target), line)
            &&& occurs_in("{\"args\":"@ + json_quote(spec_query_string(target)), line)
            &&& occurs_in(",\"message\":"@ + json_quote(s), line)
            &&& occurs_in(",\"status\":"@ + decimal(spec_parse_combined(s)->Ok_0.status->Some_0 as nat), line)
        }),
{
    law_combined_fields(s);
    let sp = spec_combined_spans(s)->Some_0;
    let p = spec_parse_combined(s)->Ok_0;
    let time = time_text(s, sp);
    let rfc = spec_chrono_parse_from_str(time, nginx_time_format())->Some_0.1;
    let status = p.status->Some_0 as nat;
    let body = spec_body_value(s, sp)->Some_0;
    let method = method_text(s, sp);
    let target = path_text(s, sp);
    let protocol = protocol_text(s, sp);
    assert(p.line == combined_record(s, sp, rfc, status, body));
    lemma_spans_request(s, sp);
    lemma_record_request(s, sp, rfc, status, body);
    lemma_record_message(s, sp, rfc, status, body);
    lemma_record_request_uri(s, sp, rfc, status, body);
    lemma_record_args(s, sp, rfc, status, body);
    lemma_record_status(s, sp, rfc, status, body);
}

} // verus!


