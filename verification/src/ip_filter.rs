//! IP matchers: exact addresses, CIDR blocks, address ranges and IPv6 prefixes
//! written like `2001:db8::`.
use vstd::prelude::*;

use vstd::arithmetic::div_mod::lemma_div_denominator;
use vstd::arithmetic::power2::{lemma_pow2_adds, lemma_pow2_pos, pow2};
use vstd::bits::lemma_u128_shr_is_div;

use crate::text::{
    chars_of, debug_text, find_char, find_char_from, lemma_find_char, parse_u8, spec_debug_text,
    string_from_range, unsigned_decimal_at_most,
};

verus! {

/// An IPv4 or IPv6 address, as the integer of its bits.
#[derive(Clone, Copy, Debug, PartialEq, Eq, Structural)]
pub enum IpAddress {
    V4(u32),
    V6(u128),
}

#[derive(Clone, Copy, Debug, PartialEq, Eq, Structural)]
pub enum IpFamily {
    V4,
    V6,
}

#[derive(Clone, Copy, Debug, PartialEq, Eq, Structural)]
pub enum IpMatcher {
    Exact(IpAddress),
    Cidr { family: IpFamily, network: u128, prefix_len: u8 },
    Range { family: IpFamily, start: u128, end: u128 },
    Ipv6Prefix { network: u128, prefix_len: u8 },
}

/// Which rule a matcher text broke.
#[derive(Clone, Copy, Debug, PartialEq, Eq, Structural)]
pub enum IpMatcherErrorKind {
    Invalid,
    InvalidCidrPrefix,
    InvalidRange,
    MixedRangeFamilies,
}

/// A rejected matcher text; each variant holds the whole text.
#[derive(Debug)]
pub enum IpMatcherError {
    Invalid(String),
    InvalidCidrPrefix(String),
    InvalidRange(String),
    MixedRangeFamilies(String),
}

impl IpMatcherError {
    pub open spec fn kind(&self) -> IpMatcherErrorKind {
        match self {
            IpMatcherError::Invalid(_) => IpMatcherErrorKind::Invalid,
            IpMatcherError::InvalidCidrPrefix(_) => IpMatcherErrorKind::InvalidCidrPrefix,
            IpMatcherError::InvalidRange(_) => IpMatcherErrorKind::InvalidRange,
            IpMatcherError::MixedRangeFamilies(_) => IpMatcherErrorKind::MixedRangeFamilies,
        }
    }

    pub open spec fn input(&self) -> Seq<char> {
        match self {
            IpMatcherError::Invalid(s) => s@,
            IpMatcherError::InvalidCidrPrefix(s) => s@,
            IpMatcherError::InvalidRange(s) => s@,
            IpMatcherError::MixedRangeFamilies(s) => s@,
        }
    }

    /// A human-readable description of the error, naming the input as
    /// `Debug` writes it.
    pub fn message(&self) -> (r: String)
        ensures
            r@ == match self.kind() {
                IpMatcherErrorKind::Invalid => "invalid IP matcher "@,
                IpMatcherErrorKind::InvalidCidrPrefix => "invalid CIDR prefix length in "@,
                IpMatcherErrorKind::InvalidRange => "IP range start is greater than end in "@,
                IpMatcherErrorKind::MixedRangeFamilies => "IP range mixes IPv4 and IPv6 in "@,
            } + spec_debug_text(self.input()),
    {
        let (mut m, s) = match self {
            IpMatcherError::Invalid(s) => (String::from_str("invalid IP matcher "), s),
            IpMatcherError::InvalidCidrPrefix(s) => (
                String::from_str("invalid CIDR prefix length in "),
                s,
            ),
            IpMatcherError::InvalidRange(s) => (
                String::from_str("IP range start is greater than end in "),
                s,
            ),
            IpMatcherError::MixedRangeFamilies(s) => (
                String::from_str("IP range mixes IPv4 and IPv6 in "),
                s,
            ),
        };
        let quoted = debug_text(s.as_str());
        m.append(quoted.as_str());
        m
    }
}

fn make_error(kind: IpMatcherErrorKind, raw: &str) -> (e: IpMatcherError)
    ensures
        e.kind() == kind,
        e.input() == raw@,
{
    let s = String::from_str(raw);
    match kind {
        IpMatcherErrorKind::Invalid => IpMatcherError::Invalid(s),
        IpMatcherErrorKind::InvalidCidrPrefix => IpMatcherError::InvalidCidrPrefix(s),
        IpMatcherErrorKind::InvalidRange => IpMatcherError::InvalidRange(s),
        IpMatcherErrorKind::MixedRangeFamilies => IpMatcherError::MixedRangeFamilies(s),
    }
}

/// The address that std's `IpAddr` parser reads from a text, if any.
pub uninterp spec fn spec_parse_ip_addr(s: Seq<char>) -> Option<IpAddress>;

/// The address that std's `Ipv6Addr` parser reads from a text, if any.
pub uninterp spec fn spec_parse_ipv6_addr(s: Seq<char>) -> Option<u128>;

/// Parses an address with `<IpAddr as FromStr>::from_str`; the result is
/// named, not described: the textual forms of IPv4 and IPv6 are std's.
#[verifier::external_body]
fn parse_ip_addr(s: &str) -> (r: Option<IpAddress>)
    ensures
        r == spec_parse_ip_addr(s@),
{
    match s.parse::<core::net::IpAddr>() {
        Ok(core::net::IpAddr::V4(a)) => Some(IpAddress::V4(u32::from(a))),
        Ok(core::net::IpAddr::V6(a)) => Some(IpAddress::V6(u128::from(a))),
        Err(_) => None,
    }
}

/// Parses an address with `<Ipv6Addr as FromStr>::from_str`; the result is named.
#[verifier::external_body]
fn parse_ipv6_addr(s: &str) -> (r: Option<u128>)
    ensures
        r == spec_parse_ipv6_addr(s@),
{
    match s.parse::<core::net::Ipv6Addr>() {
        Ok(a) => Some(u128::from(a)),
        Err(_) => None,
    }
}

impl IpAddress {
    /// Reads an IPv4 or IPv6 address in std's textual form.
    pub fn parse(s: &str) -> (r: Option<IpAddress>)
        ensures
            r == spec_parse_ip_addr(s@),
    {
        parse_ip_addr(s)
    }
}

/// A text that is not an IP address.
#[derive(Clone, Copy, Debug, PartialEq, Eq)]
pub struct AddressParseError;

impl core::str::FromStr for IpAddress {
    type Err = AddressParseError;

    fn from_str(s: &str) -> (r: Result<IpAddress, AddressParseError>)
        ensures
            r matches Ok(a) ==> spec_parse_ip_addr(s@) == Some(a),
            r is Err ==> spec_parse_ip_addr(s@) is None,
    {
        match parse_ip_addr(s) {
            Some(a) => Ok(a),
            None => Err(AddressParseError),
        }
    }
}

pub open spec fn family_bits(family: IpFamily) -> u8 {
    match family {
        IpFamily::V4 => 32,
        IpFamily::V6 => 128,
    }
}

/// `value` with its lowest `bits - prefix_len` bits cleared, and 0 for an
/// empty prefix.
pub open spec fn spec_masked(value: u128, prefix_len: u8, bits: u8) -> u128 {
    if prefix_len == 0 {
        0
    } else {
        (value >> ((bits - prefix_len) as u128)) << ((bits - prefix_len) as u128)
    }
}

/// Keeps the first `prefix_len` of the `bits` low bits of `value`.
pub fn masked(value: u128, prefix_len: u8, bits: u8) -> (r: u128)
    requires
        prefix_len <= bits <= 128,
    ensures
        r == spec_masked(value, prefix_len, bits),
{
    if prefix_len == 0 {
        return 0;
    }
    let host_bits = (bits - prefix_len) as u128;
    let mask = (!0u128) << host_bits;
    assert(value & ((!0u128) << host_bits) == (value >> host_bits) << host_bits) by (bit_vector)
        requires
            host_bits < 128,
    ;
    value & mask
}

impl IpMatcher {
    /// The matchers that `matches` accepts: prefixes that fit their family.
    pub open spec fn wf(&self) -> bool {
        match *self {
            IpMatcher::Cidr { family, prefix_len, .. } => prefix_len <= family_bits(family),
            IpMatcher::Ipv6Prefix { prefix_len, .. } => prefix_len <= 128,
            _ => true,
        }
    }

    /// The matchers that `matches` can test an address against: the prefix
    /// fits its family whenever the address is of that family.
    pub open spec fn fits(&self, addr: IpAddress) -> bool {
        match (*self, addr) {
            (IpMatcher::Cidr { family: IpFamily::V4, prefix_len, .. }, IpAddress::V4(_)) => prefix_len
                <= 32,
            (IpMatcher::Cidr { family: IpFamily::V6, prefix_len, .. }, IpAddress::V6(_)) => prefix_len
                <= 128,
            (IpMatcher::Ipv6Prefix { prefix_len, .. }, IpAddress::V6(_)) => prefix_len <= 128,
            _ => true,
        }
    }

    /// A matcher whose prefix fits its family can test any address.
    pub proof fn lemma_wf_fits(&self, addr: IpAddress)
        requires
            self.wf(),
        ensures
            self.fits(addr),
    {
    }

    /// Whether the matcher covers an address.
    pub open spec fn covers(&self, addr: IpAddress) -> bool {
        match *self {
            IpMatcher::Exact(exact) => exact == addr,
            IpMatcher::Cidr { family, network, prefix_len } => match (family, addr) {
                (IpFamily::V4, IpAddress::V4(a)) => spec_masked(a as u128, prefix_len, 32)
                    == network,
                (IpFamily::V6, IpAddress::V6(a)) => spec_masked(a, prefix_len, 128) == network,
                _ => false,
            },
            IpMatcher::Range { family, start, end } => match (family, addr) {
                (IpFamily::V4, IpAddress::V4(a)) => start <= a && a <= end,
                (IpFamily::V6, IpAddress::V6(a)) => start <= a && a <= end,
                _ => false,
            },
            IpMatcher::Ipv6Prefix { network, prefix_len } => match addr {
                IpAddress::V6(a) => spec_masked(a, prefix_len, 128) == network,
                IpAddress::V4(_) => false,
            },
        }
    }

    pub fn matches(&self, addr: IpAddress) -> (r: bool)
        requires
            self.fits(addr),
        ensures
            r == self.covers(addr),
    {
        match *self {
            IpMatcher::Exact(exact) => exact == addr,
            IpMatcher::Cidr { family, network, prefix_len } => match (family, addr) {
                (IpFamily::V4, IpAddress::V4(a)) => masked(a as u128, prefix_len, 32) == network,
                (IpFamily::V6, IpAddress::V6(a)) => masked(a, prefix_len, 128) == network,
                _ => false,
            },
            IpMatcher::Range { family, start, end } => match (family, addr) {
                (IpFamily::V4, IpAddress::V4(a)) => start <= a as u128 && a as u128 <= end,
                (IpFamily::V6, IpAddress::V6(a)) => start <= a && a <= end,
                _ => false,
            },
            IpMatcher::Ipv6Prefix { network, prefix_len } => match addr {
                IpAddress::V6(a) => masked(a, prefix_len, 128) == network,
                IpAddress::V4(_) => false,
            },
        }
    }
}

/// The number of non-empty groups between colons.
pub open spec fn colon_groups(s: Seq<char>) -> nat
    decreases s.len(),
{
    if s.len() == 0 {
        0
    } else {
        colon_groups(s.drop_last()) + if s.last() != ':' && (s.len() == 1 || s[s.len() - 2]
            == ':') {
            1nat
        } else {
            0nat
        }
    }
}

pub open spec fn ends_with_double_colon(s: Seq<char>) -> bool {
    s.len() >= 2 && s[s.len() - 2] == ':' && s[s.len() - 1] == ':'
}

/// What `addr/prefix` denotes.
pub open spec fn spec_parse_cidr(addr: Seq<char>, prefix: Seq<char>) -> Result<
    IpMatcher,
    IpMatcherErrorKind,
> {
    match spec_parse_ip_addr(addr) {
        None => Err(IpMatcherErrorKind::Invalid),
        Some(a) => match unsigned_decimal_at_most(prefix, 255) {
            None => Err(IpMatcherErrorKind::InvalidCidrPrefix),
            Some(p) => match a {
                IpAddress::V4(v) => if p <= 32 {
                    Ok(
                        IpMatcher::Cidr {
                            family: IpFamily::V4,
                            network: spec_masked(v as u128, p as u8, 32),
                            prefix_len: p as u8,
                        },
                    )
                } else {
                    Err(IpMatcherErrorKind::InvalidCidrPrefix)
                },
                IpAddress::V6(v) => if p <= 128 {
                    Ok(
                        IpMatcher::Cidr {
                            family: IpFamily::V6,
                            network: spec_masked(v, p as u8, 128),
                            prefix_len: p as u8,
                        },
                    )
                } else {
                    Err(IpMatcherErrorKind::InvalidCidrPrefix)
                },
            },
        },
    }
}

/// What `start-end` denotes.
pub open spec fn spec_parse_range(start: Seq<char>, end: Seq<char>) -> Result<
    IpMatcher,
    IpMatcherErrorKind,
> {
    match (spec_parse_ip_addr(start), spec_parse_ip_addr(end)) {
        (Some(IpAddress::V4(s)), Some(IpAddress::V4(e))) => if s > e {
            Err(IpMatcherErrorKind::InvalidRange)
        } else {
            Ok(IpMatcher::Range { family: IpFamily::V4, start: s as u128, end: e as u128 })
        },
        (Some(IpAddress::V6(s)), Some(IpAddress::V6(e))) => if s > e {
            Err(IpMatcherErrorKind::InvalidRange)
        } else {
            Ok(IpMatcher::Range { family: IpFamily::V6, start: s, end: e })
        },
        (Some(_), Some(_)) => Err(IpMatcherErrorKind::MixedRangeFamilies),
        _ => Err(IpMatcherErrorKind::Invalid),
    }
}

/// What a text ending in `::` denotes: the address, with a prefix of sixteen
/// bits per group written before the `::`.  A valid IPv6 address has at most
/// eight groups, so a text with more is rejected as invalid.
pub open spec fn spec_parse_ipv6_prefix(raw: Seq<char>) -> Result<IpMatcher, IpMatcherErrorKind> {
    match spec_parse_ipv6_addr(raw) {
        None => Err(IpMatcherErrorKind::Invalid),
        Some(v) => if colon_groups(raw) <= 8 {
            Ok(
                IpMatcher::Ipv6Prefix {
                    network: spec_masked(v, (colon_groups(raw) * 16) as u8, 128),
                    prefix_len: (colon_groups(raw) * 16) as u8,
                },
            )
        } else {
            Err(IpMatcherErrorKind::Invalid)
        },
    }
}

/// What a matcher text denotes: `addr/prefix`, `start-end`, an IPv6 prefix
/// ending in `::`, or a single address.
pub open spec fn spec_parse_matcher(raw: Seq<char>) -> Result<IpMatcher, IpMatcherErrorKind> {
    let slash = find_char(raw, 0, '/');
    let dash = find_char(raw, 0, '-');
    if slash < raw.len() {
        spec_parse_cidr(raw.subrange(0, slash), raw.subrange(slash + 1, raw.len() as int))
    } else if dash < raw.len() {
        spec_parse_range(raw.subrange(0, dash), raw.subrange(dash + 1, raw.len() as int))
    } else if ends_with_double_colon(raw) {
        spec_parse_ipv6_prefix(raw)
    } else {
        match spec_parse_ip_addr(raw) {
            Some(a) => Ok(IpMatcher::Exact(a)),
            None => Err(IpMatcherErrorKind::Invalid),
        }
    }
}

/// Counts `colon_groups` of a character vector.
fn count_colon_groups(chars: &Vec<char>) -> (r: usize)
    ensures
        r == colon_groups(chars@),
{
    let mut count: usize = 0;
    let mut i: usize = 0;
    while i < chars.len()
        invariant
            i <= chars@.len(),
            count == colon_groups(chars@.subrange(0, i as int)),
            count <= i,
        decreases chars@.len() - i,
    {
        let starts = chars[i] != ':' && (i == 0 || chars[i - 1] == ':');
        proof {
            let s = chars@.subrange(0, i + 1);
            assert(s.drop_last() =~= chars@.subrange(0, i as int));
        }
        if starts {
            count = count + 1;
        }
        i = i + 1;
    }
    assert(chars@.subrange(0, chars@.len() as int) =~= chars@);
    count
}

fn parse_cidr(raw: &str, addr: &str, prefix: &str) -> (r: Result<IpMatcher, IpMatcherError>)
    ensures
        r matches Ok(m) ==> spec_parse_cidr(addr@, prefix@) == Ok::<
            IpMatcher,
            IpMatcherErrorKind,
        >(m),
        r matches Err(e) ==> spec_parse_cidr(addr@, prefix@) == Err::<
            IpMatcher,
            IpMatcherErrorKind,
        >(e.kind()) && e.input() == raw@,
{
    let a = match parse_ip_addr(addr) {
        Some(a) => a,
        None => return Err(make_error(IpMatcherErrorKind::Invalid, raw)),
    };
    let prefix_len = match parse_u8(prefix) {
        Some(p) => p,
        None => return Err(make_error(IpMatcherErrorKind::InvalidCidrPrefix, raw)),
    };
    match a {
        IpAddress::V4(v) => {
            if prefix_len <= 32 {
                Ok(
                    IpMatcher::Cidr {
                        family: IpFamily::V4,
                        network: masked(v as u128, prefix_len, 32),
                        prefix_len,
                    },
                )
            } else {
                Err(make_error(IpMatcherErrorKind::InvalidCidrPrefix, raw))
            }
        },
        IpAddress::V6(v) => {
            if prefix_len <= 128 {
                Ok(
                    IpMatcher::Cidr {
                        family: IpFamily::V6,
                        network: masked(v, prefix_len, 128),
                        prefix_len,
                    },
                )
            } else {
                Err(make_error(IpMatcherErrorKind::InvalidCidrPrefix, raw))
            }
        },
    }
}

fn parse_range(raw: &str, start: &str, end: &str) -> (r: Result<IpMatcher, IpMatcherError>)
    ensures
        r matches Ok(m) ==> spec_parse_range(start@, end@) == Ok::<IpMatcher, IpMatcherErrorKind>(
            m,
        ),
        r matches Err(e) ==> spec_parse_range(start@, end@) == Err::<
            IpMatcher,
            IpMatcherErrorKind,
        >(e.kind()) && e.input() == raw@,
{
    let s = match parse_ip_addr(start) {
        Some(a) => a,
        None => return Err(make_error(IpMatcherErrorKind::Invalid, raw)),
    };
    let e = match parse_ip_addr(end) {
        Some(a) => a,
        None => return Err(make_error(IpMatcherErrorKind::Invalid, raw)),
    };
    let (family, lo, hi) = match (s, e) {
        (IpAddress::V4(s), IpAddress::V4(e)) => (IpFamily::V4, s as u128, e as u128),
        (IpAddress::V6(s), IpAddress::V6(e)) => (IpFamily::V6, s, e),
        _ => return Err(make_error(IpMatcherErrorKind::MixedRangeFamilies, raw)),
    };
    if lo > hi {
        return Err(make_error(IpMatcherErrorKind::InvalidRange, raw));
    }
    Ok(IpMatcher::Range { family, start: lo, end: hi })
}

fn parse_ipv6_prefix(raw: &str, chars: &Vec<char>) -> (r: Result<IpMatcher, IpMatcherError>)
    requires
        chars@ == raw@,
    ensures
        r matches Ok(m) ==> spec_parse_ipv6_prefix(raw@) == Ok::<IpMatcher, IpMatcherErrorKind>(
            m,
        ),
        r matches Err(e) ==> spec_parse_ipv6_prefix(raw@) == Err::<
            IpMatcher,
            IpMatcherErrorKind,
        >(e.kind()) && e.input() == raw@,
{
    let groups = count_colon_groups(chars);
    let addr = match parse_ipv6_addr(raw) {
        Some(a) => a,
        None => return Err(make_error(IpMatcherErrorKind::Invalid, raw)),
    };
    if groups > 8 {
        return Err(make_error(IpMatcherErrorKind::Invalid, raw));
    }
    let prefix_len = (groups * 16) as u8;
    Ok(IpMatcher::Ipv6Prefix { network: masked(addr, prefix_len, 128), prefix_len })
}

impl IpMatcher {
    /// Reads a matcher: `addr/prefix` (CIDR), `start-end` (inclusive range of
    /// one family), `xxxx:yyyy::` (IPv6 prefix of sixteen bits per written
    /// group), or a single address.
    pub fn parse(raw: &str) -> (r: Result<IpMatcher, IpMatcherError>)
        ensures
            r matches Ok(m) ==> spec_parse_matcher(raw@) == Ok::<IpMatcher, IpMatcherErrorKind>(m)
                && m.wf(),
            r matches Err(e) ==> spec_parse_matcher(raw@) == Err::<
                IpMatcher,
                IpMatcherErrorKind,
            >(e.kind()) && e.input() == raw@,
    {
        let chars = chars_of(raw);
        let n = chars.len();
        let slash = find_char_from(&chars, 0, '/');
        let dash = find_char_from(&chars, 0, '-');
        proof {
            lemma_find_char(chars@, 0, '/');
            lemma_find_char(chars@, 0, '-');
        }
        if slash < n {
            let addr = string_from_range(&chars, 0, slash);
            let prefix = string_from_range(&chars, slash + 1, n);
            return parse_cidr(raw, addr.as_str(), prefix.as_str());
        }
        if dash < n {
            let start = string_from_range(&chars, 0, dash);
            let end = string_from_range(&chars, dash + 1, n);
            return parse_range(raw, start.as_str(), end.as_str());
        }
        if n >= 2 && chars[n - 2] == ':' && chars[n - 1] == ':' {
            return parse_ipv6_prefix(raw, &chars);
        }
        match parse_ip_addr(raw) {
            Some(a) => Ok(IpMatcher::Exact(a)),
            None => Err(make_error(IpMatcherErrorKind::Invalid, raw)),
        }
    }
}

/// Clearing low bits twice clears them once.
pub proof fn lemma_masked_idempotent(value: u128, prefix_len: u8, bits: u8)
    requires
        prefix_len <= bits <= 128,
    ensures
        spec_masked(spec_masked(value, prefix_len, bits), prefix_len, bits) == spec_masked(
            value,
            prefix_len,
            bits,
        ),
{
    if prefix_len > 0 {
        let h = (bits - prefix_len) as u128;
        assert(((((value >> h) << h) >> h) << h) == ((value >> h) << h)) by (bit_vector)
            requires
                h < 128,
        ;
    }
}

/// A CIDR block covers the address it was written with, and its own network
/// address.
pub proof fn law_cidr_covers_its_addresses(addr: Seq<char>, prefix: Seq<char>)
    requires
        spec_parse_cidr(addr, prefix) is Ok,
    ensures
        spec_parse_cidr(addr, prefix)->Ok_0.covers(spec_parse_ip_addr(addr)->Some_0),
        match spec_parse_cidr(addr, prefix)->Ok_0 {
            IpMatcher::Cidr { family: IpFamily::V4, network, .. } => spec_parse_cidr(
                addr,
                prefix,
            )->Ok_0.covers(IpAddress::V4(network as u32)),
            IpMatcher::Cidr { family: IpFamily::V6, network, .. } => spec_parse_cidr(
                addr,
                prefix,
            )->Ok_0.covers(IpAddress::V6(network)),
            _ => false,
        },
{
    let p = unsigned_decimal_at_most(prefix, 255)->Some_0 as u8;
    match spec_parse_ip_addr(addr)->Some_0 {
        IpAddress::V4(v) => {
            let n = spec_masked(v as u128, p, 32);
            lemma_masked_idempotent(v as u128, p, 32);
            if p > 0 {
                let h = (32 - p) as u128;
                let w = v as u128;
                assert(((w >> h) << h) < 0x1_0000_0000u128) by (bit_vector)
                    requires
                        w < 0x1_0000_0000u128,
                        h < 32,
                ;
            }
            assert(n < 0x1_0000_0000u128);
            assert((n as u32) as u128 == n);
        },
        IpAddress::V6(v) => {
            lemma_masked_idempotent(v, p, 128);
        },
    }
}

/// A CIDR block written with prefix length 0 covers every address of its family.
pub proof fn law_cidr_zero_prefix_covers_family(addr: Seq<char>, prefix: Seq<char>, other: IpAddress)
    requires
        spec_parse_cidr(addr, prefix) is Ok,
        unsigned_decimal_at_most(prefix, 255) == Some(0nat),
        match (spec_parse_ip_addr(addr)->Some_0, other) {
            (IpAddress::V4(_), IpAddress::V4(_)) => true,
            (IpAddress::V6(_), IpAddress::V6(_)) => true,
            _ => false,
        },
    ensures
        spec_parse_cidr(addr, prefix)->Ok_0.covers(other),
{
}

/// Blocks nest: two values that agree on a longer prefix agree on every
/// shorter one.
pub proof fn law_prefixes_nest(value: u128, other: u128, shorter: u8, longer: u8, bits: u8)
    requires
        shorter <= longer <= bits <= 128,
        spec_masked(value, longer, bits) == spec_masked(other, longer, bits),
    ensures
        spec_masked(value, shorter, bits) == spec_masked(other, shorter, bits),
{
    if shorter > 0 {
        let h1 = (bits - shorter) as u128;
        let h2 = (bits - longer) as u128;
        let d = (h1 - h2) as u128;
        lemma_clear_then_shift(value, h2, d);
        lemma_clear_then_shift(other, h2, d);
    }
}

/// Shifting right by `a + d` is shifting right by `a`, then by `d`.
proof fn lemma_shr_compose(v: u128, a: u128, d: u128)
    requires
        a + d < 128,
    ensures
        (v >> ((a + d) as u128)) == ((v >> a) >> d),
{
    let s = (a + d) as u128;
    lemma_u128_shr_is_div(v, s);
    lemma_u128_shr_is_div(v, a);
    lemma_u128_shr_is_div(v >> a, d);
    lemma_pow2_pos(a as nat);
    lemma_pow2_pos(d as nat);
    lemma_pow2_adds(a as nat, d as nat);
    lemma_div_denominator(v as int, pow2(a as nat) as int, pow2(d as nat) as int);
}

/// Clearing the low `a` bits does not change a shift right by `a + d`.
proof fn lemma_clear_then_shift(v: u128, a: u128, d: u128)
    requires
        a + d < 128,
    ensures
        (((v >> a) << a) >> ((a + d) as u128)) == (v >> ((a + d) as u128)),
{
    let x = v >> a;
    assert(((x << a) >> a) == x) by (bit_vector)
        requires
            x == v >> a,
            a < 128,
    ;
    let y = (v >> a) << a;
    lemma_shr_compose(y, a, d);
    lemma_shr_compose(v, a, d);
}

/// What every parsed matcher is like: a CIDR prefix fits its family and its
/// network has the host bits cleared (an IPv4 network fits 32 bits); a range
/// is ordered (an IPv4 range within 32 bits); an IPv6 prefix is a whole
/// number of sixteen-bit groups, at most 128 bits, with its host bits cleared.
pub open spec fn well_built(m: IpMatcher) -> bool {
    match m {
        IpMatcher::Exact(_) => true,
        IpMatcher::Cidr { family, network, prefix_len } => {
            &&& prefix_len <= family_bits(family)
            &&& spec_masked(network, prefix_len, family_bits(family)) == network
            &&& family == IpFamily::V4 ==> network < 0x1_0000_0000
        },
        IpMatcher::Range { family, start, end } => {
            &&& start <= end
            &&& family == IpFamily::V4 ==> end < 0x1_0000_0000
        },
        IpMatcher::Ipv6Prefix { network, prefix_len } => {
            &&& prefix_len % 16 == 0
            &&& prefix_len <= 128
            &&& spec_masked(network, prefix_len, 128) == network
        },
    }
}

/// Every matcher that a text parses to is well built.
pub proof fn law_parsed_matchers_are_well_built(raw: Seq<char>)
    requires
        spec_parse_matcher(raw) is Ok,
    ensures
        well_built(spec_parse_matcher(raw)->Ok_0),
{
    let slash = find_char(raw, 0, '/');
    let dash = find_char(raw, 0, '-');
    if slash < raw.len() {
        let addr = raw.subrange(0, slash);
        let prefix = raw.subrange(slash + 1, raw.len() as int);
        law_cidr_covers_its_addresses(addr, prefix);
        let p = unsigned_decimal_at_most(prefix, 255)->Some_0 as u8;
        match spec_parse_ip_addr(addr)->Some_0 {
            IpAddress::V4(v) => lemma_masked_idempotent(v as u128, p, 32),
            IpAddress::V6(v) => lemma_masked_idempotent(v, p, 128),
        }
        if let IpAddress::V4(v) = spec_parse_ip_addr(addr)->Some_0 {
            if p > 0 {
                let h = (32 - p) as u128;
                let w = v as u128;
                assert(((w >> h) << h) < 0x1_0000_0000u128) by (bit_vector)
                    requires
                        w < 0x1_0000_0000u128,
                        h < 32,
                ;
            }
        }
    } else if dash < raw.len() {
    } else if ends_with_double_colon(raw) {
        let g = colon_groups(raw);
        assert(g * 16 <= 128);
        assert((g * 16) as u8 == g * 16);
        lemma_masked_idempotent(spec_parse_ipv6_addr(raw)->Some_0, (g * 16) as u8, 128);
    }
}

/// A range covers both of its written end points.
pub proof fn law_range_covers_end_points(start: Seq<char>, end: Seq<char>)
    requires
        spec_parse_range(start, end) is Ok,
    ensures
        spec_parse_range(start, end)->Ok_0.covers(spec_parse_ip_addr(start)->Some_0),
        spec_parse_range(start, end)->Ok_0.covers(spec_parse_ip_addr(end)->Some_0),
{
}

/// A matcher text without `/` or `-` that does not end in `::` and reads as
/// an IP address is that single address, and covers that address and no
/// other.
pub proof fn law_single_address_matcher(raw: Seq<char>, other: IpAddress)
    requires
        forall|i: int| 0 <= i < raw.len() ==> #[trigger] raw[i] != '/' && raw[i] != '-',
        !(raw.len() >= 2 && raw[raw.len() - 2] == ':' && raw[raw.len() - 1] == ':'),
        spec_parse_ip_addr(raw) is Some,
    ensures
        spec_parse_matcher(raw) == Ok::<IpMatcher, IpMatcherErrorKind>(
            IpMatcher::Exact(spec_parse_ip_addr(raw)->Some_0),
        ),
        spec_parse_matcher(raw)->Ok_0.covers(other) <==> other == spec_parse_ip_addr(raw)->Some_0,
{
    lemma_find_char(raw, 0, '/');
    lemma_find_char(raw, 0, '-');
}

/// A CIDR block covers an address of its family exactly when the address
/// agrees with the written address on the first `prefix_len` bits (every
/// address of the family for a prefix of length 0), and no address of the
/// other family.
pub proof fn law_cidr_covers_its_block(addr: Seq<char>, prefix: Seq<char>, other: IpAddress)
    requires
        spec_parse_cidr(addr, prefix) is Ok,
    ensures
        ({
            let m = spec_parse_cidr(addr, prefix)->Ok_0;
            let p = unsigned_decimal_at_most(prefix, 255)->Some_0;
            match (spec_parse_ip_addr(addr)->Some_0, other) {
                (IpAddress::V4(v), IpAddress::V4(b)) => m.covers(other) <==> ((b as u128) >> ((32
                    - p) as u128)) == ((v as u128) >> ((32 - p) as u128)),
                (IpAddress::V6(v), IpAddress::V6(b)) => (p == 0 ==> m.covers(other)) && (p > 0 ==> (
                m.covers(other) <==> (b >> ((128 - p) as u128)) == (v >> ((128 - p) as u128)))),
                _ => !m.covers(other),
            }
        }),
{
    let p = unsigned_decimal_at_most(prefix, 255)->Some_0;
    match (spec_parse_ip_addr(addr)->Some_0, other) {
        (IpAddress::V4(v), IpAddress::V4(b)) => {
            let h = (32 - p) as u128;
            let x = b as u128;
            let y = v as u128;
            if p == 0 {
                assert((x >> h) == (y >> h)) by (bit_vector)
                    requires
                        x < 0x1_0000_0000u128,
                        y < 0x1_0000_0000u128,
                        h == 32,
                ;
            } else {
                assert((((x >> h) << h) == ((y >> h) << h)) <==> ((x >> h) == (y >> h))) by (bit_vector)
                    requires
                        h < 32,
                ;
            }
        },
        (IpAddress::V6(v), IpAddress::V6(b)) => {
            if p > 0 {
                let h = (128 - p) as u128;
                let x = b >> h;
                let y = v >> h;
                assert(((x << h) >> h) == x) by (bit_vector)
                    requires
                        x == b >> h,
                        h < 128,
                ;
                assert(((y << h) >> h) == y) by (bit_vector)
                    requires
                        y == v >> h,
                        h < 128,
                ;
            }
        },
        _ => {},
    }
}

/// An IPv6 prefix matcher covers exactly the IPv6 addresses that agree with
/// the written address on its first `prefix_len` bits, a whole number of
/// sixteen-bit groups.
pub proof fn law_ipv6_prefix_covers_its_block(raw: Seq<char>, other: IpAddress)
    requires
        spec_parse_ipv6_prefix(raw) is Ok,
    ensures
        ({
            let m = spec_parse_ipv6_prefix(raw)->Ok_0;
            let v = spec_parse_ipv6_addr(raw)->Some_0;
            &&& m is Ipv6Prefix
            &&& m->Ipv6Prefix_prefix_len % 16 == 0
            &&& match other {
                IpAddress::V6(b) => m->Ipv6Prefix_prefix_len == 0 ==> m.covers(other),
                IpAddress::V4(_) => !m.covers(other),
            }
            &&& match other {
                IpAddress::V6(b) => m->Ipv6Prefix_prefix_len > 0 ==> (m.covers(other) <==> (b >> ((128
                    - m->Ipv6Prefix_prefix_len) as u128)) == (v >> ((128 - m->Ipv6Prefix_prefix_len) as u128))),
                IpAddress::V4(_) => true,
            }
        }),
{
    let m = spec_parse_ipv6_prefix(raw)->Ok_0;
    let g = colon_groups(raw);
    assert((g * 16) as u8 == g * 16);
    if let IpAddress::V6(b) = other {
        let p = m->Ipv6Prefix_prefix_len;
        if p > 0 {
            let v = spec_parse_ipv6_addr(raw)->Some_0;
            let h = (128 - p) as u128;
            let x = b >> h;
            let y = v >> h;
            assert(((x << h) >> h) == x) by (bit_vector)
                requires
                    x == b >> h,
                    h < 128,
            ;
            assert(((y << h) >> h) == y) by (bit_vector)
                requires
                    y == v >> h,
                    h < 128,
            ;
        }
    }
}

/// A range covers exactly the addresses of its family from its written start
/// to its written end.
pub proof fn law_range_covers_between(start: Seq<char>, end: Seq<char>, other: IpAddress)
    requires
        spec_parse_range(start, end) is Ok,
    ensures
        spec_parse_range(start, end)->Ok_0.covers(other) <==> match (
            spec_parse_ip_addr(start)->Some_0,
            spec_parse_ip_addr(end)->Some_0,
            other,
        ) {
            (IpAddress::V4(s), IpAddress::V4(e), IpAddress::V4(b)) => s <= b <= e,
            (IpAddress::V6(s), IpAddress::V6(e), IpAddress::V6(b)) => s <= b <= e,
            _ => false,
        },
{
}

} // verus!


