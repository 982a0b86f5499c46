//! What the log tailer decides: which directory to watch for a glob, which
//! files and lines to skip, and where reading a file resumes.
use vstd::prelude::*;

use crate::config::{has_key, label_value, Labels, LogFormat, WatchConfig};
use crate::ip_filter::{IpAddress, IpMatcher, IpMatcherError};
use crate::logs::{
    line_time_overflows, outcome, spec_parse_combined, spec_parse_json, try_parse_line, ParseError,
    ParsedLine, ParsedLineView,
};
pub use crate::glob_pattern::{spec_glob_matches, spec_glob_valid, GlobPattern};
use crate::text::{chars_of, debug_text, find_char, lemma_find_char, spec_debug_text, string_from_range};

verus! {

// ---------------------------------------------------------------------------
// The directory to watch for a glob

/// The parent that std's `Path::parent` gives a path, if any.
pub uninterp spec fn spec_path_parent(path: Seq<char>) -> Option<Seq<char>>;

/// The parent of a path with std's `Path::parent`; the result is named.  The
/// parent of a path given as text is a prefix of that text, so it converts
/// back to text without loss.
#[verifier::external_body]
fn path_parent(path: &str) -> (r: Option<String>)
    ensures
        r matches Some(p) ==> spec_path_parent(path@) == Some(p@),
        r is None ==> spec_path_parent(path@) is None,
{
    match std::path::Path::new(path).parent() {
        Some(p) => Some(p.to_string_lossy().into_owned()),
        None => None,
    }
}

pub open spec fn is_glob_magic(c: char) -> bool {
    c == '*' || c == '?' || c == '[' || c == '{'
}

/// The first index holding a glob metacharacter (`*`, `?`, `[`, `{`), or the
/// length.
pub open spec fn first_magic(s: Seq<char>, i: int) -> int
    decreases s.len() - i,
{
    if i >= s.len() {
        s.len() as int
    } else if is_glob_magic(s[i]) {
        i
    } else {
        first_magic(s, i + 1)
    }
}

proof fn lemma_first_magic(s: Seq<char>, i: int)
    requires
        0 <= i <= s.len(),
    ensures
        i <= first_magic(s, i) <= s.len(),
    decreases s.len() - i,
{
    if i < s.len() && !is_glob_magic(s[i]) {
        lemma_first_magic(s, i + 1);
    }
}

/// The directory that holds every match of a glob: the text before its first
/// metacharacter when that ends in `/`, else that text's parent, else `.`.
pub open spec fn spec_glob_parent(pattern: Seq<char>) -> Seq<char> {
    let prefix = pattern.subrange(0, first_magic(pattern, 0));
    if prefix.len() > 0 && prefix.last() == '/' {
        prefix
    } else {
        match spec_path_parent(prefix) {
            Some(p) => p,
            None => "."@,
        }
    }
}

/// The directory to watch for a glob.
pub fn glob_parent(pattern: &str) -> (r: String)
    ensures
        r@ == spec_glob_parent(pattern@),
{
    let chars = chars_of(pattern);
    let mut magic: usize = 0;
    while magic < chars.len() && !(chars[magic] == '*' || chars[magic] == '?' || chars[magic]
        == '[' || chars[magic] == '{')
        invariant
            magic <= chars@.len(),
            first_magic(chars@, magic as int) == first_magic(chars@, 0),
        decreases chars@.len() - magic,
    {
        magic = magic + 1;
    }
    proof {
        lemma_first_magic(chars@, 0);
    }
    let prefix = string_from_range(&chars, 0, magic);
    if magic > 0 && chars[magic - 1] == '/' {
        return prefix;
    }
    match path_parent(prefix.as_str()) {
        Some(p) => p,
        None => String::from_str("."),
    }
}

// ---------------------------------------------------------------------------
// Watch specifications

/// A watch entry with its patterns compiled and its labels merged over the
/// global ones.
#[derive(Debug)]
pub struct WatchSpec {
    pub glob: String,
    pub ignore: Vec<GlobPattern>,
    pub ignore_ips: Vec<IpMatcher>,
    pub ignore_paths: Vec<GlobPattern>,
    pub ignore_status: Vec<u16>,
    pub format: LogFormat,
    pub from_beginning: bool,
    pub labels: Labels,
}

/// Why a watch entry is refused.
#[derive(Debug)]
pub enum SpecError {
    /// An `ignore` pattern does not compile.
    IgnorePattern { pattern: String, glob: String, pattern_error: glob::PatternError },
    /// An `ignore_ips` entry is not an IP matcher.
    IgnoreIp { matcher: String, glob: String, matcher_error: IpMatcherError },
    /// An `ignore_paths` pattern does not compile.
    IgnorePath { pattern: String, glob: String, pattern_error: glob::PatternError },
}

impl SpecError {
    /// The text of the refused item.
    pub open spec fn item(&self) -> Seq<char> {
        match self {
            SpecError::IgnorePattern { pattern, .. } => pattern@,
            SpecError::IgnoreIp { matcher, .. } => matcher@,
            SpecError::IgnorePath { pattern, .. } => pattern@,
        }
    }

    /// The glob of the refused watch entry.
    pub open spec fn watch_glob(&self) -> Seq<char> {
        match self {
            SpecError::IgnorePattern { glob, .. } => glob@,
            SpecError::IgnoreIp { glob, .. } => glob@,
            SpecError::IgnorePath { glob, .. } => glob@,
        }
    }

    /// A human-readable description of the refusal, naming the item as
    /// `Debug` writes it and the watch entry by its glob.  (The cause, a
    /// glob or IP matcher error, is held in the variant.)
    pub fn message(&self) -> (r: String)
        ensures
            r@ == match self {
                SpecError::IgnorePattern { .. } => "invalid ignore glob pattern "@,
                SpecError::IgnoreIp { .. } => "invalid ignore IP matcher "@,
                SpecError::IgnorePath { .. } => "invalid ignore path glob pattern "@,
            } + spec_debug_text(self.item()) + " for watch "@ + self.watch_glob(),
    {
        let (mut m, item, glob) = match self {
            SpecError::IgnorePattern { pattern, glob, .. } => (
                String::from_str("invalid ignore glob pattern "),
                pattern,
                glob,
            ),
            SpecError::IgnoreIp { matcher, glob, .. } => (
                String::from_str("invalid ignore IP matcher "),
                matcher,
                glob,
            ),
            SpecError::IgnorePath { pattern, glob, .. } => (
                String::from_str("invalid ignore path glob pattern "),
                pattern,
                glob,
            ),
        };
        let quoted = debug_text(item.as_str());
        m.append(quoted.as_str());
        m.append(" for watch ");
        m.append(glob.as_str());
        m
    }
}

pub open spec fn patterns_view(v: Seq<GlobPattern>) -> Seq<Seq<char>> {
    v.map_values(|p: GlobPattern| p@)
}

pub open spec fn strings_view(v: Seq<String>) -> Seq<Seq<char>> {
    v.map_values(|s: String| s@)
}

/// Compiles every pattern of a list, stopping at the first that fails.
fn compile_all(patterns: &Vec<String>) -> (r: Result<Vec<GlobPattern>, (usize, glob::PatternError)>)
    ensures
        match r {
            Ok(v) => patterns_view(v@) == strings_view(patterns@) && forall|i: int|
                0 <= i < patterns@.len() ==> spec_glob_valid(#[trigger] patterns@[i]@),
            Err((i, _)) => i < patterns@.len() && !spec_glob_valid(patterns@[i as int]@) && forall|j: int|
                0 <= j < i ==> spec_glob_valid(#[trigger] patterns@[j]@),
        },
{
    let mut out: Vec<GlobPattern> = Vec::new();
    let mut i: usize = 0;
    while i < patterns.len()
        invariant
            i <= patterns@.len(),
            out@.len() == i,
            forall|j: int| 0 <= j < i ==> #[trigger] out@[j]@ == patterns@[j]@,
            forall|j: int| 0 <= j < i ==> spec_glob_valid(#[trigger] patterns@[j]@),
        decreases patterns@.len() - i,
    {
        match GlobPattern::new(patterns[i].as_str()) {
            Ok(p) => {
                out.push(p);
            },
            Err(e) => return Err((i, e)),
        }
        i = i + 1;
    }
    assert(patterns_view(out@) =~= strings_view(patterns@));
    Ok(out)
}

/// Parses every IP matcher of a list, stopping at the first that fails.
fn parse_all_matchers(matchers: &Vec<String>) -> (r: Result<Vec<IpMatcher>, (usize, IpMatcherError)>)
    ensures
        match r {
            Ok(v) => v@.len() == matchers@.len() && forall|i: int|
                0 <= i < matchers@.len() ==> crate::ip_filter::spec_parse_matcher(#[trigger] matchers@[i]@) == Ok::<IpMatcher, crate::ip_filter::IpMatcherErrorKind>(v@[i]) && v@[i].wf(),
            Err((i, e)) => i < matchers@.len() && e.input() == matchers@[i as int]@ && crate::ip_filter::spec_parse_matcher(matchers@[i as int]@) == Err::<IpMatcher, crate::ip_filter::IpMatcherErrorKind>(e.kind()) && forall|j: int|
                0 <= j < i ==> crate::ip_filter::spec_parse_matcher(#[trigger] matchers@[j]@) is Ok,
        },
{
    let mut out: Vec<IpMatcher> = Vec::new();
    let mut i: usize = 0;
    while i < matchers.len()
        invariant
            i <= matchers@.len(),
            out@.len() == i,
            forall|j: int| 0 <= j < i ==> crate::ip_filter::spec_parse_matcher(#[trigger] matchers@[j]@) == Ok::<IpMatcher, crate::ip_filter::IpMatcherErrorKind>(out@[j]) && out@[j].wf(),
        decreases matchers@.len() - i,
    {
        match IpMatcher::parse(matchers[i].as_str()) {
            Ok(m) => {
                out.push(m);
            },
            Err(e) => return Err((i, e)),
        }
        i = i + 1;
    }
    Ok(out)
}

/// Whether an error rightly refuses a watch entry: it names the entry's glob
/// and the first item, in the order `ignore`, `ignore_ips`, `ignore_paths`,
/// that fails.
pub open spec fn spec_refusal(watch: &WatchConfig, e: SpecError) -> bool {
    let ignore = strings_view(watch.ignore@);
    let ips = strings_view(watch.ignore_ips@);
    let paths = strings_view(watch.ignore_paths@);
    match e {
        SpecError::IgnorePattern { pattern, glob, .. } => {
            &&& glob@ == watch.glob@
            &&& exists|i: int|
                0 <= i < ignore.len() && #[trigger] ignore[i] == pattern@ && first_invalid(
                    ignore,
                    i,
                )
        },
        SpecError::IgnoreIp { matcher, glob, matcher_error } => {
            &&& glob@ == watch.glob@
            &&& all_valid(ignore)
            &&& exists|i: int|
                0 <= i < ips.len() && #[trigger] ips[i] == matcher@ && matcher_error.input() == matcher@
                    && crate::ip_filter::spec_parse_matcher(ips[i]) == Err::<
                    IpMatcher,
                    crate::ip_filter::IpMatcherErrorKind,
                >(matcher_error.kind()) && forall|j: int|
                    0 <= j < i ==> crate::ip_filter::spec_parse_matcher(#[trigger] ips[j]) is Ok
        },
        SpecError::IgnorePath { pattern, glob, .. } => {
            &&& glob@ == watch.glob@
            &&& all_valid(ignore)
            &&& all_parse(ips)
            &&& exists|i: int|
                0 <= i < paths.len() && #[trigger] paths[i] == pattern@ && first_invalid(paths, i)
        },
    }
}

pub open spec fn all_valid(v: Seq<Seq<char>>) -> bool {
    forall|i: int| 0 <= i < v.len() ==> spec_glob_valid(#[trigger] v[i])
}

pub open spec fn all_parse(v: Seq<Seq<char>>) -> bool {
    forall|i: int| 0 <= i < v.len() ==> crate::ip_filter::spec_parse_matcher(#[trigger] v[i]) is Ok
}

pub open spec fn first_invalid(v: Seq<Seq<char>>, i: int) -> bool {
    !spec_glob_valid(v[i]) && forall|j: int| 0 <= j < i ==> spec_glob_valid(#[trigger] v[j])
}

/// Builds the watch specification of an entry: its labels are the global
/// ones with the entry's own set over them, and its patterns and matchers
/// are compiled in the order `ignore`, `ignore_ips`, `ignore_paths`; the
/// first that fails refuses the entry.
pub fn to_spec(global_labels: &Labels, watch: &WatchConfig) -> (r: Result<WatchSpec, SpecError>)
    ensures
        match r {
            Ok(spec) => {
                &&& spec.glob@ == watch.glob@
                &&& all_valid(strings_view(watch.ignore@))
                &&& all_valid(strings_view(watch.ignore_paths@))
                &&& patterns_view(spec.ignore@) == strings_view(watch.ignore@)
                &&& patterns_view(spec.ignore_paths@) == strings_view(watch.ignore_paths@)
                &&& spec.ignore_ips@.len() == watch.ignore_ips@.len()
                &&& forall|i: int| 0 <= i < watch.ignore_ips@.len() ==> crate::ip_filter::spec_parse_matcher(#[trigger] watch.ignore_ips@[i]@) == Ok::<IpMatcher, crate::ip_filter::IpMatcherErrorKind>(spec.ignore_ips@[i]) && spec.ignore_ips@[i].wf()
                &&& spec.ignore_status@ == watch.ignore_status@
                &&& spec.format == watch.format
                &&& spec.from_beginning == watch.from_beginning
                &&& forall|k: Seq<char>| label_value(spec.labels@, k) == if has_key(watch.labels@, k) {
                    label_value(watch.labels@, k)
                } else {
                    label_value(global_labels@, k)
                }
            },
            Err(e) => spec_refusal(watch, e),
        },
{
    let mut labels = global_labels.clone();
    labels.extend(&watch.labels);
    let ghost ignore_text = strings_view(watch.ignore@);
    let ghost ips_text = strings_view(watch.ignore_ips@);
    let ghost paths_text = strings_view(watch.ignore_paths@);
    let ignore = match compile_all(&watch.ignore) {
        Ok(v) => v,
        Err((i, pattern_error)) => {
            let pattern = watch.ignore[i].clone();
            assert(ignore_text[i as int] == pattern@);
            assert(first_invalid(ignore_text, i as int));
            return Err(SpecError::IgnorePattern { pattern, glob: watch.glob.clone(), pattern_error });
        },
    };
    assert(all_valid(ignore_text));
    let ignore_ips = match parse_all_matchers(&watch.ignore_ips) {
        Ok(v) => v,
        Err((i, matcher_error)) => {
            let matcher = watch.ignore_ips[i].clone();
            assert(ips_text[i as int] == matcher@);
            assert(forall|j: int| 0 <= j < i ==> ips_text[j] == watch.ignore_ips@[j]@);
            return Err(SpecError::IgnoreIp { matcher, glob: watch.glob.clone(), matcher_error });
        },
    };
    assert(all_parse(ips_text));
    let ignore_paths = match compile_all(&watch.ignore_paths) {
        Ok(v) => v,
        Err((i, pattern_error)) => {
            let pattern = watch.ignore_paths[i].clone();
            assert(paths_text[i as int] == pattern@);
            assert(first_invalid(paths_text, i as int));
            return Err(SpecError::IgnorePath { pattern, glob: watch.glob.clone(), pattern_error });
        },
    };
    assert(all_valid(paths_text));
    Ok(
        WatchSpec {
            glob: watch.glob.clone(),
            ignore,
            ignore_ips,
            ignore_paths,
            ignore_status: watch.ignore_status.clone(),
            format: watch.format,
            from_beginning: watch.from_beginning,
            labels,
        },
    )
}

/// Whether some pattern of a list matches a text.
pub open spec fn any_glob_matches(patterns: Seq<Seq<char>>, text: Seq<char>) -> bool {
    exists|i: int| 0 <= i < patterns.len() && spec_glob_matches(#[trigger] patterns[i], text)
}

fn any_matches(patterns: &Vec<GlobPattern>, text: &str) -> (r: bool)
    ensures
        r == any_glob_matches(patterns_view(patterns@), text@),
{
    let mut i: usize = 0;
    while i < patterns.len()
        invariant
            i <= patterns@.len(),
            forall|j: int| 0 <= j < i ==> !spec_glob_matches(#[trigger] patterns_view(patterns@)[j], text@),
        decreases patterns@.len() - i,
    {
        if patterns[i].matches(text) {
            assert(spec_glob_matches(patterns_view(patterns@)[i as int], text@));
            return true;
        }
        i = i + 1;
    }
    false
}

impl WatchSpec {
    /// Whether a matched file is excluded by an `ignore` pattern.
    pub fn is_ignored(&self, path: &str) -> (r: bool)
        ensures
            r == any_glob_matches(patterns_view(self.ignore@), path@),
    {
        any_matches(&self.ignore, path)
    }
}

// ---------------------------------------------------------------------------
// Lines of a watched file

/// Why a parsed line is not shipped.
#[derive(Clone, Copy, Debug, PartialEq, Eq, Structural)]
pub enum Skip {
    /// Its status is in `ignore_status`.
    Status,
    /// Its request path matches an `ignore_paths` pattern.
    Path,
    /// Its remote address is covered by an `ignore_ips` matcher.
    Address,
}

/// The filters that a watched file applies to its parsed lines.
#[derive(Debug)]
pub struct LineFilter {
    pub ignore_ips: Vec<IpMatcher>,
    pub ignore_paths: Vec<GlobPattern>,
    pub ignore_status: Vec<u16>,
}

impl LineFilter {
    /// Filters whose matchers `IpMatcher::matches` accepts.
    pub open spec fn wf(&self) -> bool {
        forall|i: int| 0 <= i < self.ignore_ips@.len() ==> #[trigger] self.ignore_ips@[i].wf()
    }

    /// Why a parsed line is skipped, checked in the order status, request
    /// path, remote address; `None` when it is shipped.
    pub open spec fn spec_skip(&self, p: ParsedLineView) -> Option<Skip> {
        if p.status is Some && self.ignore_status@.contains(p.status->Some_0) {
            Some(Skip::Status)
        } else if p.request_path is Some && any_glob_matches(
            patterns_view(self.ignore_paths@),
            p.request_path->Some_0,
        ) {
            Some(Skip::Path)
        } else if p.remote_addr is Some && exists|i: int|
            0 <= i < self.ignore_ips@.len() && #[trigger] self.ignore_ips@[i].covers(
                p.remote_addr->Some_0,
            ) {
            Some(Skip::Address)
        } else {
            None
        }
    }

    /// The filters of a watch specification.
    pub fn from_spec(spec: &WatchSpec) -> (r: LineFilter)
        requires
            forall|i: int| 0 <= i < spec.ignore_ips@.len() ==> #[trigger] spec.ignore_ips@[i].wf(),
        ensures
            r.wf(),
            r.ignore_ips@ == spec.ignore_ips@,
            patterns_view(r.ignore_paths@) == patterns_view(spec.ignore_paths@),
            r.ignore_status@ == spec.ignore_status@,
    {
        let mut paths: Vec<GlobPattern> = Vec::new();
        let mut i: usize = 0;
        while i < spec.ignore_paths.len()
            invariant
                i <= spec.ignore_paths@.len(),
                paths@.len() == i,
                forall|j: int| 0 <= j < i ==> #[trigger] paths@[j]@ == spec.ignore_paths@[j]@,
            decreases spec.ignore_paths@.len() - i,
        {
            paths.push(spec.ignore_paths[i].clone());
            i = i + 1;
        }
        assert(patterns_view(paths@) =~= patterns_view(spec.ignore_paths@));
        LineFilter {
            ignore_ips: spec.ignore_ips.clone(),
            ignore_paths: paths,
            ignore_status: spec.ignore_status.clone(),
        }
    }

    fn status_ignored(&self, status: u16) -> (r: bool)
        ensures
            r == self.ignore_status@.contains(status),
    {
        let mut i: usize = 0;
        while i < self.ignore_status.len()
            invariant
                i <= self.ignore_status@.len(),
                forall|j: int| 0 <= j < i ==> self.ignore_status@[j] != status,
            decreases self.ignore_status@.len() - i,
        {
            if self.ignore_status[i] == status {
                return true;
            }
            i = i + 1;
        }
        false
    }

    fn address_ignored(&self, addr: IpAddress) -> (r: bool)
        requires
            self.wf(),
        ensures
            r == exists|i: int| 0 <= i < self.ignore_ips@.len() && #[trigger] self.ignore_ips@[i].covers(addr),
    {
        let mut i: usize = 0;
        while i < self.ignore_ips.len()
            invariant
                self.wf(),
                i <= self.ignore_ips@.len(),
                forall|j: int| 0 <= j < i ==> !(#[trigger] self.ignore_ips@[j]).covers(addr),
            decreases self.ignore_ips@.len() - i,
        {
            proof {
                self.ignore_ips@[i as int].lemma_wf_fits(addr);
            }
            if self.ignore_ips[i].matches(addr) {
                return true;
            }
            i = i + 1;
        }
        false
    }

    /// Why a parsed line is skipped, if it is.
    pub fn skip_reason(&self, parsed: &ParsedLine) -> (r: Option<Skip>)
        requires
            self.wf(),
        ensures
            r == self.spec_skip(parsed@),
    {
        if let Some(status) = parsed.status {
            if self.status_ignored(status) {
                return Some(Skip::Status);
            }
        }
        if let Some(path) = &parsed.request_path {
            if any_matches(&self.ignore_paths, path.as_str()) {
                return Some(Skip::Path);
            }
        }
        if let Some(addr) = parsed.remote_addr {
            if self.address_ignored(addr) {
                return Some(Skip::Address);
            }
        }
        None
    }
}

/// A line without its trailing `\n` and `\r` characters.
pub open spec fn spec_trim_line_end(s: Seq<char>) -> Seq<char>
    decreases s.len(),
{
    if s.len() > 0 && (s.last() == '\n' || s.last() == '\r') {
        spec_trim_line_end(s.drop_last())
    } else {
        s
    }
}

/// Removes the line terminators at the end of a line.
pub fn trim_line_end(line: &str) -> (r: String)
    ensures
        r@ == spec_trim_line_end(line@),
{
    let chars = chars_of(line);
    let mut end = chars.len();
    assert(chars@.subrange(0, end as int) =~= chars@);
    while end > 0 && (chars[end - 1] == '\n' || chars[end - 1] == '\r')
        invariant
            end <= chars@.len(),
            spec_trim_line_end(chars@.subrange(0, end as int)) == spec_trim_line_end(chars@),
        decreases end,
    {
        assert(chars@.subrange(0, end as int).drop_last() =~= chars@.subrange(0, end - 1));
        end = end - 1;
    }
    string_from_range(&chars, 0, end)
}

/// What becomes of one line read from a watched file.
#[derive(Debug)]
pub enum LineOutcome {
    /// Nothing is left once the line terminators are removed.
    Empty,
    /// The line cannot be parsed.
    Unparsable(ParseError),
    /// The line's time lies beyond the nanosecond range of `i64`.
    TimestampOutOfRange,
    /// The line is parsed and skipped.
    Skipped(Skip),
    /// The line is parsed and is to be shipped.
    Ship(ParsedLine),
}

/// Whether an outcome is the one that a parse result and a filter call for.
pub open spec fn outcome_follows(
    r: LineOutcome,
    parsed: Result<ParsedLineView, crate::logs::ParseFailure>,
    filter: &LineFilter,
) -> bool {
    match parsed {
        Err(f) => r matches LineOutcome::Unparsable(e) && e.failure() == f,
        Ok(p) => match filter.spec_skip(p) {
            Some(s) => r == LineOutcome::Skipped(s),
            None => r matches LineOutcome::Ship(q) && q@ == p,
        },
    }
}

/// Handles one line read from a watched file: removes its line terminators,
/// parses it in the file's format and applies the file's filters.
pub fn process_line(format: LogFormat, raw: &str, filter: &LineFilter) -> (r: LineOutcome)
    requires
        filter.wf(),
    ensures
        spec_trim_line_end(raw@).len() == 0 <==> r is Empty,
        spec_trim_line_end(raw@).len() > 0 ==> (r is TimestampOutOfRange <==> line_time_overflows(
            format,
            spec_trim_line_end(raw@),
        )),
        spec_trim_line_end(raw@).len() > 0 && !line_time_overflows(format, spec_trim_line_end(raw@))
            && format == LogFormat::Combined ==> outcome_follows(
            r,
            spec_parse_combined(spec_trim_line_end(raw@)),
            filter,
        ),
        spec_trim_line_end(raw@).len() > 0 && !line_time_overflows(format, spec_trim_line_end(raw@))
            && format == LogFormat::Json ==> exists|now_ns: Option<
            i64,
        >| outcome_follows(r, #[trigger] spec_parse_json(spec_trim_line_end(raw@), now_ns), filter),
{
    let line = trim_line_end(raw);
    if line.as_str().is_empty() {
        return LineOutcome::Empty;
    }
    let parsed = match try_parse_line(format, line.as_str()) {
        Some(p) => p,
        None => return LineOutcome::TimestampOutOfRange,
    };
    match parsed {
        Err(e) => LineOutcome::Unparsable(e),
        Ok(p) => match filter.skip_reason(&p) {
            Some(s) => LineOutcome::Skipped(s),
            None => LineOutcome::Ship(p),
        },
    }
}

/// Where reading a watched file stands: the device and inode it was opened
/// with, and the offset of the next unread byte.
#[derive(Clone, Copy, Debug, PartialEq, Eq, Structural)]
pub struct FileCursor {
    pub dev: u64,
    pub ino: u64,
    pub offset: u64,
}

impl FileCursor {
    /// The cursor of a file just opened: at its start when the watch reads
    /// from the beginning, else at its end.
    pub fn open(dev: u64, ino: u64, len: u64, from_beginning: bool) -> (r: FileCursor)
        ensures
            r.dev == dev && r.ino == ino,
            r.offset == if from_beginning {
                0
            } else {
                len
            },
    {
        FileCursor { dev, ino, offset: if from_beginning { 0 } else { len } }
    }

    /// Whether the path now names another file; `current` is the device and
    /// inode at the path, `None` when nothing is there.
    pub fn replaced_on_disk(&self, current: Option<(u64, u64)>) -> (r: bool)
        ensures
            r == match current {
                Some((dev, ino)) => dev != self.dev || ino != self.ino,
                None => false,
            },
    {
        match current {
            Some((dev, ino)) => dev != self.dev || ino != self.ino,
            None => false,
        }
    }

    /// Whether a watched file is opened afresh when its glob matches it again:
    /// when the path now names another file, or when looking at the path
    /// failed (`None`); `Some(None)` means nothing is at the path.
    pub fn should_reopen(&self, current: Option<Option<(u64, u64)>>) -> (r: bool)
        ensures
            r == match current {
                Some(Some((dev, ino))) => dev != self.dev || ino != self.ino,
                Some(None) => false,
                None => true,
            },
    {
        match current {
            Some(c) => self.replaced_on_disk(c),
            None => true,
        }
    }

    /// Whether the file was cut below the read offset; `current` is the
    /// device, inode and length at the path, `None` when nothing is there.
    pub fn truncated_on_disk(&self, current: Option<(u64, u64, u64)>) -> (r: bool)
        ensures
            r == match current {
                Some((dev, ino, len)) => dev == self.dev && ino == self.ino && len < self.offset,
                None => false,
            },
    {
        match current {
            Some((dev, ino, len)) => dev == self.dev && ino == self.ino && len < self.offset,
            None => false,
        }
    }

    /// Goes back to the start of the file.
    pub fn rewind(&mut self)
        ensures
            final(self).offset == 0,
            final(self).dev == old(self).dev && final(self).ino == old(self).ino,
    {
        self.offset = 0;
    }

    /// Moves past bytes just read.
    pub fn advance(&mut self, bytes: u64)
        requires
            old(self).offset + bytes <= u64::MAX,
        ensures
            final(self).offset == old(self).offset + bytes,
            final(self).dev == old(self).dev && final(self).ino == old(self).ino,
    {
        self.offset = self.offset + bytes;
    }
}

/// The labels of a watched file: its watch's labels with `filename` set to
/// its path.
pub fn file_labels(spec_labels: &Labels, path: &str) -> (r: Labels)
    ensures
        forall|k: Seq<char>|
            label_value(r@, k) == if k == "filename"@ {
                Some(path@)
            } else {
                label_value(spec_labels@, k)
            },
{
    let mut labels = spec_labels.clone();
    labels.insert(String::from_str("filename"), String::from_str(path));
    labels
}

/// The labels of a watched file's stream: `filename` is its path; any other
/// key takes its value from the watch entry when the entry sets it, else from
/// the global labels.  `spec` stands for the labels that `to_spec` gives the
/// entry and `file` for those that `file_labels` then gives the file.
pub proof fn law_label_precedence(
    global: Seq<(Seq<char>, Seq<char>)>,
    watch: Seq<(Seq<char>, Seq<char>)>,
    spec: Seq<(Seq<char>, Seq<char>)>,
    file: Seq<(Seq<char>, Seq<char>)>,
    path: Seq<char>,
    key: Seq<char>,
)
    requires
        forall|k: Seq<char>|
            label_value(spec, k) == if has_key(watch, k) {
                label_value(watch, k)
            } else {
                label_value(global, k)
            },
        forall|k: Seq<char>|
            label_value(file, k) == if k == "filename"@ {
                Some(path)
            } else {
                label_value(spec, k)
            },
    ensures
        label_value(file, key) == if key == "filename"@ {
            Some(path)
        } else if has_key(watch, key) {
            label_value(watch, key)
        } else {
            label_value(global, key)
        },
{
    assert(label_value(file, key) == if key == "filename"@ {
        Some(path)
    } else {
        label_value(spec, key)
    });
    assert(label_value(spec, key) == if has_key(watch, key) {
        label_value(watch, key)
    } else {
        label_value(global, key)
    });
}

/// What the tailer's loop carries from one pass to the next: whether every
/// file is to be read at the start of the pass.
#[derive(Clone, Copy, Debug, PartialEq, Eq, Structural)]
pub struct TailerLoop {
    pub should_read: bool,
}

impl TailerLoop {
    /// The loop before its first pass, which starts by reading every file.
    pub fn new() -> (r: TailerLoop)
        ensures
            r.should_read,
    {
        TailerLoop { should_read: true }
    }

    /// Starts a pass: whether every file is read before the batch is flushed
    /// if due; the files are then no longer due for reading.
    pub fn start_pass(&mut self) -> (read: bool)
        ensures
            read == old(self).should_read,
            !final(self).should_read,
    {
        let read = self.should_read;
        self.should_read = false;
        read
    }

    /// Takes the number of inotify events that the pass received: whether
    /// to read every file, reconcile the watches, read again and flush if
    /// due.  The reads of such a pass leave the files not due for reading.
    pub fn after_events(&mut self, events: usize) -> (reconcile: bool)
        ensures
            reconcile == (events > 0),
            reconcile ==> !final(self).should_read,
            !reconcile ==> *final(self) == *old(self),
    {
        if events > 0 {
            self.should_read = false;
            true
        } else {
            false
        }
    }
}

/// Removing line terminators twice removes no more than once, and what is
/// left does not end in one.
pub proof fn law_trim_line_end_idempotent(s: Seq<char>)
    ensures
        spec_trim_line_end(spec_trim_line_end(s)) == spec_trim_line_end(s),
        spec_trim_line_end(s).len() > 0 ==> spec_trim_line_end(s).last() != '\n'
            && spec_trim_line_end(s).last() != '\r',
    decreases s.len(),
{
    if s.len() > 0 && (s.last() == '\n' || s.last() == '\r') {
        law_trim_line_end_idempotent(s.drop_last());
    }
}

/// A parsed line whose status is any of the filter's ignored statuses, in
/// whatever place of the list, is skipped for its status; and a line is
/// skipped for its status only when its status is one of them.
pub proof fn law_ignored_status_skips(filter: &LineFilter, p: ParsedLineView)
    ensures
        (p.status matches Some(s) && exists|i: int|
            0 <= i < filter.ignore_status@.len() && filter.ignore_status@[i] == s) ==> filter.spec_skip(
            p,
        ) == Some(Skip::Status),
        filter.spec_skip(p) == Some(Skip::Status) ==> (p.status matches Some(s) && exists|i: int|
            0 <= i < filter.ignore_status@.len() && filter.ignore_status@[i] == s),
{
    if let Some(s) = p.status {
        if exists|i: int| 0 <= i < filter.ignore_status@.len() && filter.ignore_status@[i] == s {
            let i = choose|i: int| 0 <= i < filter.ignore_status@.len() && filter.ignore_status@[i] == s;
            assert(filter.ignore_status@.contains(s));
        }
    }
}

} // verus!

