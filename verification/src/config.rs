//! Logging configuration: per-target level filters parsed from a
//! specification string of the form `default_level,target=level,...`.
//!
//! The string normally comes from the process environment; reading it is
//! the embedding's job, parsing and lookup are the library's. A lookup
//! returns the level of the most specific entry — the longest key that is a
//! prefix of the target — falling back to the default level. Keywords are
//! matched after trimming ASCII whitespace and lowering ASCII letters.

use vstd::prelude::*;
use vstd::string::StringSliceAdditionalSpecFns;

verus! {

/// Severity of one log message, most severe first.
#[derive(Clone, Copy, Debug, PartialEq, Eq, Structural)]
pub enum Level {
    Error,
    Warn,
    Info,
    Debug,
    Trace,
}

/// Verbosity cap of a target: `Off` allows nothing, `Trace` everything.
#[derive(Clone, Copy, Debug, PartialEq, Eq, Structural)]
pub enum LevelFilter {
    Off,
    Error,
    Warn,
    Info,
    Debug,
    Trace,
}

/// Severity rank of a message level; smaller is more severe.
pub open spec fn level_rank(l: Level) -> int {
    match l {
        Level::Error => 1,
        Level::Warn => 2,
        Level::Info => 3,
        Level::Debug => 4,
        Level::Trace => 5,
    }
}

/// Verbosity rank of a filter: the largest message rank it allows.
pub open spec fn filter_rank(f: LevelFilter) -> int {
    match f {
        LevelFilter::Off => 0,
        LevelFilter::Error => 1,
        LevelFilter::Warn => 2,
        LevelFilter::Info => 3,
        LevelFilter::Debug => 4,
        LevelFilter::Trace => 5,
    }
}

/// The more verbose of two filters.
pub open spec fn spec_filter_max(a: LevelFilter, b: LevelFilter) -> LevelFilter {
    if filter_rank(b) > filter_rank(a) {
        b
    } else {
        a
    }
}

/// The console log sink. Formatting and printing live with the embedding;
/// the admission rule is here.
pub struct Logger;

impl Logger {
    /// Whether a message of `level` passes `filter`: exactly when the
    /// message rank does not exceed the filter rank.
    pub fn level_allowed(level: Level, filter: LevelFilter) -> (r: bool)
        ensures
            r == (level_rank(level) <= filter_rank(filter)),
    {
        match filter {
            LevelFilter::Off => false,
            LevelFilter::Error => matches!(level, Level::Error),
            LevelFilter::Warn => matches!(level, Level::Error | Level::Warn),
            LevelFilter::Info => !matches!(level, Level::Debug | Level::Trace),
            LevelFilter::Debug => !matches!(level, Level::Trace),
            LevelFilter::Trace => true,
        }
    }
}

/// ASCII whitespace: space and the five control characters tab through
/// carriage return.
pub open spec fn is_ascii_space(b: u8) -> bool {
    b == 32 || (9 <= b && b <= 13)
}

/// ASCII lowering of one byte: `A`..`Z` map to `a`..`z`, all else is kept.
pub open spec fn lower_byte(b: u8) -> u8 {
    if 65 <= b && b <= 90 {
        (b + 32) as u8
    } else {
        b
    }
}

/// Every byte lowered.
pub open spec fn spec_lower(s: Seq<u8>) -> Seq<u8> {
    Seq::new(s.len(), |i: int| lower_byte(s[i]))
}

/// Index of the first non-whitespace byte at or after `i` (the length if
/// none).
pub open spec fn spec_skip_spaces(s: Seq<u8>, i: nat) -> nat
    decreases s.len() - i,
{
    if i >= s.len() {
        s.len()
    } else if is_ascii_space(s[i as int]) {
        spec_skip_spaces(s, i + 1)
    } else {
        i
    }
}

/// End of the content when trailing whitespace before `j` is dropped (zero
/// if all whitespace).
pub open spec fn spec_rskip_spaces(s: Seq<u8>, j: nat) -> nat
    decreases j,
{
    if j == 0 {
        0
    } else if j <= s.len() && is_ascii_space(s[j - 1]) {
        spec_rskip_spaces(s, (j - 1) as nat)
    } else {
        j
    }
}

/// `s` with ASCII whitespace removed from both ends.
pub open spec fn spec_trimmed(s: Seq<u8>) -> Seq<u8> {
    let a = spec_skip_spaces(s, 0);
    let b = spec_rskip_spaces(s, s.len());
    if a <= b {
        s.subrange(a as int, b as int)
    } else {
        Seq::empty()
    }
}

/// Index of the first occurrence of `b` at or after `i` (the length if
/// none).
pub open spec fn find_byte(s: Seq<u8>, i: nat, b: u8) -> nat
    decreases s.len() - i,
{
    if i >= s.len() {
        s.len()
    } else if s[i as int] == b {
        i
    } else {
        find_byte(s, i + 1, b)
    }
}

/// The bytes of `"off"`.
pub open spec fn kw_off() -> Seq<u8> {
    seq![111u8, 102u8, 102u8]
}

/// The bytes of `"error"`.
pub open spec fn kw_error() -> Seq<u8> {
    seq![101u8, 114u8, 114u8, 111u8, 114u8]
}

/// The bytes of `"warn"`.
pub open spec fn kw_warn() -> Seq<u8> {
    seq![119u8, 97u8, 114u8, 110u8]
}

/// The bytes of `"warning"`.
pub open spec fn kw_warning() -> Seq<u8> {
    seq![119u8, 97u8, 114u8, 110u8, 105u8, 110u8, 103u8]
}

/// The bytes of `"info"`.
pub open spec fn kw_info() -> Seq<u8> {
    seq![105u8, 110u8, 102u8, 111u8]
}

/// The bytes of `"debug"`.
pub open spec fn kw_debug() -> Seq<u8> {
    seq![100u8, 101u8, 98u8, 117u8, 103u8]
}

/// The bytes of `"trace"`.
pub open spec fn kw_trace() -> Seq<u8> {
    seq![116u8, 114u8, 97u8, 99u8, 101u8]
}

/// The filter a level keyword names, on trimmed lowered bytes.
pub open spec fn spec_level_keyword(t: Seq<u8>) -> Option<LevelFilter> {
    if t == kw_off() {
        Some(LevelFilter::Off)
    } else if t == kw_error() {
        Some(LevelFilter::Error)
    } else if t == kw_warn() || t == kw_warning() {
        Some(LevelFilter::Warn)
    } else if t == kw_info() {
        Some(LevelFilter::Info)
    } else if t == kw_debug() {
        Some(LevelFilter::Debug)
    } else if t == kw_trace() {
        Some(LevelFilter::Trace)
    } else {
        None
    }
}

/// Parse one level keyword: trim, lower, match.
pub open spec fn spec_parse_level_filter(s: Seq<u8>) -> Option<LevelFilter> {
    spec_level_keyword(spec_lower(spec_trimmed(s)))
}

/// Whether `p` is a prefix of `t`.
pub open spec fn is_prefix(p: Seq<u8>, t: Seq<u8>) -> bool {
    p.len() <= t.len() && p == t.subrange(0, p.len() as int)
}

/// One per-target entry: a key and the filter configured for it.
pub type ConfigEntry = (Seq<u8>, LevelFilter);

/// `entries` with the first entry keyed `k`, if any, removed.
pub open spec fn spec_remove_key(entries: Seq<ConfigEntry>, k: Seq<u8>) -> Seq<ConfigEntry>
    decreases entries.len(),
{
    if entries.len() == 0 {
        entries
    } else if entries[0].0 == k {
        entries.drop_first()
    } else {
        seq![entries[0]] + spec_remove_key(entries.drop_first(), k)
    }
}

/// Store `k = v`: any previous entry for `k` is dropped and the new one
/// appended.
pub open spec fn spec_upsert(entries: Seq<ConfigEntry>, k: Seq<u8>, v: LevelFilter) -> Seq<
    ConfigEntry,
> {
    spec_remove_key(entries, k).push((k, v))
}

/// The most specific entry for `target`: among the entries whose key is a
/// prefix of `target`, the one with the longest key, later entries winning
/// ties.
pub open spec fn spec_best_match(entries: Seq<ConfigEntry>, target: Seq<u8>) -> Option<ConfigEntry>
    decreases entries.len(),
{
    if entries.len() == 0 {
        None
    } else {
        let prev = spec_best_match(entries.drop_last(), target);
        let last = entries.last();
        if is_prefix(last.0, target) {
            match prev {
                None => Some(last),
                Some(b) => if b.0.len() > last.0.len() {
                    Some(b)
                } else {
                    Some(last)
                },
            }
        } else {
            prev
        }
    }
}

/// Parsing state: the entries so far, the default level, and the most
/// verbose level seen.
pub type ParseState = (Seq<ConfigEntry>, LevelFilter, LevelFilter);

/// Process one comma-separated part. A part without `=` (byte 61) proposes
/// the default level; a part `key=value` stores the trimmed key under the
/// parsed value. Parts whose level keyword does not parse are skipped. Any
/// parsed level raises the most-verbose-seen level.
pub open spec fn spec_part(part: Seq<u8>, st: ParseState) -> ParseState {
    let eq = find_byte(part, 0, 61);
    if eq >= part.len() {
        match spec_parse_level_filter(part) {
            Some(l) => (st.0, l, spec_filter_max(st.2, l)),
            None => st,
        }
    } else {
        let key = spec_trimmed(part.subrange(0, eq as int));
        let value = part.subrange(eq as int + 1, part.len() as int);
        match spec_parse_level_filter(value) {
            Some(l) => (spec_upsert(st.0, key, l), st.1, spec_filter_max(st.2, l)),
            None => st,
        }
    }
}

/// The first match position never precedes the start of the search.
pub proof fn lemma_find_byte_ge(s: Seq<u8>, i: nat, b: u8)
    ensures
        i <= find_byte(s, i, b) <= s.len() || i > s.len(),
    decreases s.len() - i,
{
    if i < s.len() && s[i as int] != b {
        lemma_find_byte_ge(s, i + 1, b);
    }
}

/// Process the comma-separated (byte 44) parts of `s` from position `i` on,
/// left to right.
pub open spec fn spec_config_from(s: Seq<u8>, i: nat, st: ParseState) -> ParseState
    recommends
        i <= s.len(),
    decreases s.len() - i,
    when i <= s.len()
    via spec_config_from_decreases
{
    let j = find_byte(s, i, 44);
    if j >= s.len() {
        spec_part(s.subrange(i as int, s.len() as int), st)
    } else {
        spec_config_from(s, j + 1, spec_part(s.subrange(i as int, j as int), st))
    }
}

#[via_fn]
proof fn spec_config_from_decreases(s: Seq<u8>, i: nat, st: ParseState) {
    lemma_find_byte_ge(s, i, 44);
}

/// The configuration a specification string parses to: entries and default
/// level as the parts say, starting from an `Info` default, and the most
/// verbose level any part named (at least `Info`).
pub open spec fn spec_config(s: Seq<u8>) -> ParseState {
    spec_config_from(s, 0, (Seq::empty(), LevelFilter::Info, LevelFilter::Info))
}

/// The abstract state of a configuration.
#[verifier::ext_equal]
pub struct ConfigView {
    pub entries: Seq<ConfigEntry>,
    pub default_log_level: LevelFilter,
    pub max_log_level: LevelFilter,
}

/// The per-target log level table, parsed once from a specification string.
pub struct Config {
    log_level: Vec<(Vec<u8>, LevelFilter)>,
    default_log_level: LevelFilter,
    max_log_level: LevelFilter,
}

/// The abstract entries a concrete entry vector holds.
pub open spec fn entries_view(ev: Seq<(Vec<u8>, LevelFilter)>) -> Seq<ConfigEntry> {
    ev.map_values(|e: (Vec<u8>, LevelFilter)| (e.0@, e.1))
}

impl View for Config {
    type V = ConfigView;

    closed spec fn view(&self) -> ConfigView {
        ConfigView {
            entries: entries_view(self.log_level@),
            default_log_level: self.default_log_level,
            max_log_level: self.max_log_level,
        }
    }
}

/// Whether byte `b` is ASCII whitespace; see [`is_ascii_space`].
fn ascii_space(b: u8) -> (r: bool)
    ensures
        r == is_ascii_space(b),
{
    b == 32 || (9 <= b && b <= 13)
}

/// ASCII lowering of one byte; see [`lower_byte`].
fn ascii_lower(b: u8) -> (r: u8)
    ensures
        r == lower_byte(b),
{
    if 65 <= b && b <= 90 {
        b + 32
    } else {
        b
    }
}

/// First occurrence of `b` in `s` at or after `from`; see [`find_byte`].
fn find_next(s: &[u8], from: usize, b: u8) -> (r: usize)
    requires
        from <= s@.len(),
    ensures
        r == find_byte(s@, from as nat, b),
        from <= r <= s@.len(),
{
    let mut i = from;
    while i < s.len()
        invariant
            from <= i <= s@.len(),
            find_byte(s@, from as nat, b) == find_byte(s@, i as nat, b),
        decreases s@.len() - i,
    {
        if s[i] == b {
            return i;
        }
        i = i + 1;
    }
    i
}

/// The bounds of `s` with surrounding ASCII whitespace dropped.
fn trim_bounds(s: &[u8]) -> (r: (usize, usize))
    ensures
        r.0 == spec_skip_spaces(s@, 0),
        r.1 == spec_rskip_spaces(s@, s@.len()),
        r.0 <= s@.len(),
        r.1 <= s@.len(),
{
    let mut a: usize = 0;
    while a < s.len() && ascii_space(s[a])
        invariant
            a <= s@.len(),
            spec_skip_spaces(s@, 0) == spec_skip_spaces(s@, a as nat),
        decreases s@.len() - a,
    {
        a = a + 1;
    }
    let mut b: usize = s.len();
    while b > 0 && ascii_space(s[b - 1])
        invariant
            b <= s@.len(),
            spec_rskip_spaces(s@, s@.len()) == spec_rskip_spaces(s@, b as nat),
        decreases b,
    {
        b = b - 1;
    }
    (a, b)
}

/// `s` trimmed, copied out; see [`spec_trimmed`].
fn trimmed_vec(s: &[u8]) -> (r: Vec<u8>)
    ensures
        r@ == spec_trimmed(s@),
{
    let (a, b) = trim_bounds(s);
    let mut r: Vec<u8> = Vec::new();
    if a >= b {
        proof {
            assert(r@ =~= spec_trimmed(s@));
        }
        return r;
    }
    let mut k = a;
    while k < b
        invariant
            a <= k <= b <= s@.len(),
            a == spec_skip_spaces(s@, 0),
            b == spec_rskip_spaces(s@, s@.len()),
            r@ =~= s@.subrange(a as int, k as int),
        decreases b - k,
    {
        r.push(s[k]);
        k = k + 1;
    }
    proof {
        assert(r@ =~= spec_trimmed(s@));
    }
    r
}

/// `s` trimmed and lowered; see [`spec_parse_level_filter`].
fn normalized_vec(s: &[u8]) -> (r: Vec<u8>)
    ensures
        r@ == spec_lower(spec_trimmed(s@)),
{
    let t = trimmed_vec(s);
    let mut r: Vec<u8> = Vec::new();
    let mut k: usize = 0;
    while k < t.len()
        invariant
            k <= t@.len(),
            t@ == spec_trimmed(s@),
            r@ =~= spec_lower(t@).take(k as int),
        decreases t@.len() - k,
    {
        r.push(ascii_lower(t[k]));
        k = k + 1;
    }
    proof {
        assert(r@ =~= spec_lower(spec_trimmed(s@)));
    }
    r
}

/// The filter a normalized keyword names; see [`spec_level_keyword`].
fn keyword_filter(t: &[u8]) -> (r: Option<LevelFilter>)
    ensures
        r == spec_level_keyword(t@),
{
    if t.len() == 3 && t[0] == 111 && t[1] == 102 && t[2] == 102 {
        proof {
            assert(t@ =~= kw_off());
        }
        Some(LevelFilter::Off)
    } else if t.len() == 5 && t[0] == 101 && t[1] == 114 && t[2] == 114 && t[3] == 111 && t[4]
        == 114 {
        proof {
            assert(t@ =~= kw_error());
        }
        Some(LevelFilter::Error)
    } else if t.len() == 4 && t[0] == 119 && t[1] == 97 && t[2] == 114 && t[3] == 110 {
        proof {
            assert(t@ =~= kw_warn());
        }
        Some(LevelFilter::Warn)
    } else if t.len() == 7 && t[0] == 119 && t[1] == 97 && t[2] == 114 && t[3] == 110 && t[4]
        == 105 && t[5] == 110 && t[6] == 103 {
        proof {
            assert(t@ =~= kw_warning());
        }
        Some(LevelFilter::Warn)
    } else if t.len() == 4 && t[0] == 105 && t[1] == 110 && t[2] == 102 && t[3] == 111 {
        proof {
            assert(t@ =~= kw_info());
        }
        Some(LevelFilter::Info)
    } else if t.len() == 5 && t[0] == 100 && t[1] == 101 && t[2] == 98 && t[3] == 117 && t[4]
        == 103 {
        proof {
            assert(t@ =~= kw_debug());
        }
        Some(LevelFilter::Debug)
    } else if t.len() == 5 && t[0] == 116 && t[1] == 114 && t[2] == 97 && t[3] == 99 && t[4]
        == 101 {
        proof {
            assert(t@ =~= kw_trace());
        }
        Some(LevelFilter::Trace)
    } else {
        None
    }
}

/// Parse one level keyword from raw bytes; see [`spec_parse_level_filter`].
fn parse_level_bytes(s: &[u8]) -> (r: Option<LevelFilter>)
    ensures
        r == spec_parse_level_filter(s@),
{
    let norm = normalized_vec(s);
    keyword_filter(norm.as_slice())
}

/// Parse one level keyword: `off`, `error`, `warn`/`warning`, `info`,
/// `debug` or `trace`, case-insensitively, with surrounding whitespace
/// ignored.
pub fn parse_level_filter(s: &str) -> (r: Option<LevelFilter>)
    ensures
        r == spec_parse_level_filter(s.spec_bytes()),
{
    parse_level_bytes(s.as_bytes())
}

/// Whether `p` is a prefix of `t`; see [`is_prefix`].
fn starts_with_bytes(t: &[u8], p: &[u8]) -> (r: bool)
    ensures
        r == is_prefix(p@, t@),
{
    if p.len() > t.len() {
        return false;
    }
    let mut k: usize = 0;
    while k < p.len()
        invariant
            k <= p@.len() <= t@.len(),
            forall|j: int| 0 <= j < k ==> p@[j] == t@[j],
        decreases p@.len() - k,
    {
        if p[k] != t[k] {
            proof {
                assert(p@[k as int] != t@.subrange(0, p@.len() as int)[k as int]);
            }
            return false;
        }
        k = k + 1;
    }
    proof {
        assert(p@ =~= t@.subrange(0, p@.len() as int));
    }
    true
}

/// Whether two byte strings are equal.
fn eq_bytes(a: &[u8], b: &[u8]) -> (r: bool)
    ensures
        r == (a@ == b@),
{
    if a.len() != b.len() {
        return false;
    }
    let mut k: usize = 0;
    while k < a.len()
        invariant
            k <= a@.len() == b@.len(),
            forall|j: int| 0 <= j < k ==> a@[j] == b@[j],
        decreases a@.len() - k,
    {
        if a[k] != b[k] {
            return false;
        }
        k = k + 1;
    }
    proof {
        assert(a@ =~= b@);
    }
    true
}

/// The more verbose of two filters; see [`spec_filter_max`].
fn filter_max(a: LevelFilter, b: LevelFilter) -> (r: LevelFilter)
    ensures
        r == spec_filter_max(a, b),
{
    let ra: u8 = match a {
        LevelFilter::Off => 0,
        LevelFilter::Error => 1,
        LevelFilter::Warn => 2,
        LevelFilter::Info => 3,
        LevelFilter::Debug => 4,
        LevelFilter::Trace => 5,
    };
    let rb: u8 = match b {
        LevelFilter::Off => 0,
        LevelFilter::Error => 1,
        LevelFilter::Warn => 2,
        LevelFilter::Info => 3,
        LevelFilter::Debug => 4,
        LevelFilter::Trace => 5,
    };
    if rb > ra {
        b
    } else {
        a
    }
}

/// `spec_remove_key` removes exactly the first entry keyed `k`.
proof fn lemma_remove_key_at(s: Seq<ConfigEntry>, k: Seq<u8>, i: int)
    requires
        0 <= i < s.len(),
        s[i].0 == k,
        forall|j: int| 0 <= j < i ==> s[j].0 != k,
    ensures
        spec_remove_key(s, k) == s.remove(i),
    decreases i,
{
    if i == 0 {
        assert(spec_remove_key(s, k) =~= s.remove(0));
    } else {
        lemma_remove_key_at(s.drop_first(), k, i - 1);
        assert((seq![s[0]] + s.drop_first().remove(i - 1)) =~= s.remove(i));
    }
}

/// `spec_remove_key` keeps a sequence with no entry keyed `k` intact.
proof fn lemma_remove_key_absent(s: Seq<ConfigEntry>, k: Seq<u8>)
    requires
        forall|j: int| 0 <= j < s.len() ==> s[j].0 != k,
    ensures
        spec_remove_key(s, k) == s,
    decreases s.len(),
{
    if s.len() > 0 {
        lemma_remove_key_absent(s.drop_first(), k);
        assert((seq![s[0]] + s.drop_first()) =~= s);
    }
}

/// Store `k = v` in the entry vector; see [`spec_upsert`].
fn upsert(entries: &mut Vec<(Vec<u8>, LevelFilter)>, k: Vec<u8>, v: LevelFilter)
    ensures
        entries_view(final(entries)@) == spec_upsert(entries_view(old(entries)@), k@, v),
{
    let ghost ev0 = entries_view(old(entries)@);
    let mut i: usize = 0;
    while i < entries.len()
        invariant
            i <= entries@.len(),
            ev0 == entries_view(entries@),
            ev0 == entries_view(old(entries)@),
            forall|j: int| 0 <= j < i ==> entries_view(entries@)[j].0 != k@,
        decreases entries@.len() - i,
    {
        if eq_bytes(entries[i].0.as_slice(), k.as_slice()) {
            proof {
                lemma_remove_key_at(ev0, k@, i as int);
            }
            let _ = entries.remove(i);
            proof {
                assert(entries_view(entries@) =~= ev0.remove(i as int));
            }
            entries.push((k, v));
            proof {
                assert(entries_view(entries@) =~= ev0.remove(i as int).push((k@, v)));
                assert(entries_view(entries@) =~= spec_upsert(ev0, k@, v));
            }
            return;
        }
        i = i + 1;
    }
    proof {
        lemma_remove_key_absent(ev0, k@);
    }
    entries.push((k, v));
    proof {
        assert(entries_view(entries@) =~= spec_upsert(ev0, k@, v));
    }
}

impl Config {
    /// Parse a configuration from a specification string; the result is
    /// exactly [`spec_config`] of its bytes.
    pub fn init(source: &str) -> (c: Config)
        ensures
            c@.entries == spec_config(source.spec_bytes()).0,
            c@.default_log_level == spec_config(source.spec_bytes()).1,
            c@.max_log_level == spec_config(source.spec_bytes()).2,
    {
        let bytes = source.as_bytes();
        let ghost s0 = bytes@;
        let mut entries: Vec<(Vec<u8>, LevelFilter)> = Vec::new();
        let mut dflt = LevelFilter::Info;
        let mut mx = LevelFilter::Info;
        let mut i: usize = 0;
        proof {
            assert(entries_view(entries@) =~= Seq::<ConfigEntry>::empty());
        }
        let mut j = find_next(bytes, i, 44);
        while j < bytes.len()
            invariant
                i <= j <= s0.len(),
                bytes@ == s0,
                j == find_byte(s0, i as nat, 44),
                spec_config_from(s0, i as nat, (entries_view(entries@), dflt, mx)) == spec_config(
                    s0,
                ),
            decreases s0.len() - i,
        {
            let (e2, d2, m2) = Self::run_part(bytes, i, j, entries, dflt, mx);
            entries = e2;
            dflt = d2;
            mx = m2;
            i = j + 1;
            j = find_next(bytes, i, 44);
        }
        let (e2, d2, m2) = Self::run_part(bytes, i, bytes.len(), entries, dflt, mx);
        entries = e2;
        dflt = d2;
        mx = m2;
        Config { log_level: entries, default_log_level: dflt, max_log_level: mx }
    }

    /// Process one part, `bytes[from..to]`; see [`spec_part`].
    fn run_part(
        bytes: &[u8],
        from: usize,
        to: usize,
        entries: Vec<(Vec<u8>, LevelFilter)>,
        dflt: LevelFilter,
        mx: LevelFilter,
    ) -> (r: (Vec<(Vec<u8>, LevelFilter)>, LevelFilter, LevelFilter))
        requires
            from <= to <= bytes@.len(),
        ensures
            (entries_view(r.0@), r.1, r.2) == spec_part(
                bytes@.subrange(from as int, to as int),
                (entries_view(entries@), dflt, mx),
            ),
    {
        let ghost part = bytes@.subrange(from as int, to as int);
        let slice = &bytes[from..to];
        proof {
            assert(slice@ == part);
        }
        let eq = find_next(slice, 0, 61);
        if eq >= slice.len() {
            match parse_level_bytes(slice) {
                Some(l) => {
                    let m2 = filter_max(mx, l);
                    (entries, l, m2)
                },
                None => (entries, dflt, mx),
            }
        } else {
            let key_slice = &slice[0..eq];
            let value_slice = &slice[eq + 1..slice.len()];
            proof {
                assert(key_slice@ == part.subrange(0, eq as int));
                assert(value_slice@ == part.subrange(eq as int + 1, part.len() as int));
            }
            match parse_level_bytes(value_slice) {
                Some(l) => {
                    let key = trimmed_vec(key_slice);
                    let mut e2 = entries;
                    upsert(&mut e2, key, l);
                    let m2 = filter_max(mx, l);
                    (e2, dflt, m2)
                },
                None => (entries, dflt, mx),
            }
        }
    }

    /// The most verbose level any configured target allows.
    pub fn get_max_log_level(&self) -> (r: LevelFilter)
        ensures
            r == self@.max_log_level,
    {
        self.max_log_level
    }

    /// The level configured for `target`: the entry with the longest key
    /// that is a prefix of `target`, or the default level if none matches.
    pub fn get_log_level(&self, target: &str) -> (r: LevelFilter)
        ensures
            r == (match spec_best_match(self@.entries, target.spec_bytes()) {
                Some(e) => e.1,
                None => self@.default_log_level,
            }),
    {
        let tb = target.as_bytes();
        let mut best: Option<LevelFilter> = None;
        let mut best_len: usize = 0;
        let mut i: usize = 0;
        let ghost ev = entries_view(self.log_level@);
        proof {
            assert(ev.take(0) =~= Seq::<ConfigEntry>::empty());
        }
        while i < self.log_level.len()
            invariant
                i <= self.log_level@.len(),
                ev == entries_view(self.log_level@),
                (match spec_best_match(ev.take(i as int), tb@) {
                    Some(e) => best == Some(e.1) && best_len == e.0.len(),
                    None => best is None,
                }),
            decreases self.log_level@.len() - i,
        {
            proof {
                assert(ev.take(i as int + 1).drop_last() =~= ev.take(i as int));
                assert(ev.take(i as int + 1).last() == ev[i as int]);
            }
            if starts_with_bytes(tb, self.log_level[i].0.as_slice()) {
                let take_it = match best {
                    None => true,
                    Some(_) => self.log_level[i].0.len() >= best_len,
                };
                if take_it {
                    best = Some(self.log_level[i].1);
                    best_len = self.log_level[i].0.len();
                }
            }
            i = i + 1;
        }
        proof {
            assert(ev.take(self.log_level@.len() as int) =~= ev);
        }
        match best {
            Some(l) => l,
            None => self.default_log_level,
        }
    }
}

} // verus!
