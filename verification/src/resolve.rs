//! Capture-target resolution.
//!
//! `system output` and `microphone` are dynamic concepts of the OS audio
//! layer, so each capture start resolves them afresh through an ordered
//! fallback chain over the device-management tool's text output: inspect
//! the well-known default alias for a numeric id; failing that, pick the
//! default-marked device from the full listing, or the device whose name
//! equals the configured default name, or the first listed; failing
//! everything, a static alias the recording tool understands natively.

use vstd::prelude::*;
use vstd::slice::slice_to_vec;
use crate::text::{chars_to_string, str_to_chars};

verus! {

/// Which of the two capture targets is meant.
#[derive(Clone, Copy, PartialEq, Eq, Structural, Debug)]
pub enum TargetKind {
    /// What the machine is playing: the output monitor.
    System,
    /// What the user is saying: the input device.
    Microphone,
}

impl TargetKind {
    /// The human-readable name of this target kind.
    pub fn label(self) -> (r: &'static str)
        ensures
            self is System ==> r@ == "system"@,
            self is Microphone ==> r@ == "microphone"@,
    {
        match self {
            TargetKind::System => "system",
            TargetKind::Microphone => "microphone",
        }
    }
}

/// Which step of the fallback chain produced a target, kept for
/// diagnosability.
#[derive(Clone, Copy, PartialEq, Eq, Structural, Debug)]
pub enum TargetResolutionMethod {
    /// The direct inspect query on the default alias answered.
    WpctlInspect,
    /// The full status listing answered.
    WpctlStatus,
    /// Nothing answered; the static alias is used.
    FallbackAlias,
}

impl TargetResolutionMethod {
    /// The diagnostic tag of this method.
    pub fn as_str(self) -> (r: &'static str)
        ensures
            self is WpctlInspect ==> r@ == "wpctl-inspect"@,
            self is WpctlStatus ==> r@ == "wpctl-status"@,
            self is FallbackAlias ==> r@ == "fallback-alias"@,
    {
        match self {
            TargetResolutionMethod::WpctlInspect => "wpctl-inspect",
            TargetResolutionMethod::WpctlStatus => "wpctl-status",
            TargetResolutionMethod::FallbackAlias => "fallback-alias",
        }
    }
}

/// A resolved capture target: what it is, the device id or alias to hand
/// to the recording tool, and which chain step produced it.
pub struct ResolvedCaptureTarget {
    /// Which target this is.
    pub kind: TargetKind,
    /// Device id, or alias, to record from.
    pub target: String,
    /// The chain step that produced the id.
    pub method: TargetResolutionMethod,
}

// ---------------------------------------------------------------------
// Character classes and lexical helpers.
// ---------------------------------------------------------------------

/// ASCII whitespace.
pub open spec fn spec_is_space(c: char) -> bool {
    c as u32 == 9 || c as u32 == 10 || c as u32 == 11 || c as u32 == 12 || c as u32 == 13 || (c
        as u32) == 32
}

fn is_space(c: char) -> (r: bool)
    ensures
        r == spec_is_space(c),
{
    let u = c as u32;
    u == 9 || u == 10 || u == 11 || u == 12 || u == 13 || u == 32
}

/// ASCII decimal digit.
pub open spec fn spec_is_digit(c: char) -> bool {
    48 <= c as u32 <= 57
}

fn is_digit(c: char) -> (r: bool)
    ensures
        r == spec_is_digit(c),
{
    let u = c as u32;
    48 <= u && u <= 57
}

/// The sequence without its leading whitespace.
pub open spec fn spec_trim_start(l: Seq<char>) -> Seq<char>
    decreases l.len(),
{
    if l.len() > 0 && spec_is_space(l[0]) {
        spec_trim_start(l.drop_first())
    } else {
        l
    }
}

/// The sequence without its trailing whitespace.
pub open spec fn spec_trim_end(l: Seq<char>) -> Seq<char>
    decreases l.len(),
{
    if l.len() > 0 && spec_is_space(l.last()) {
        spec_trim_end(l.drop_last())
    } else {
        l
    }
}

/// The sequence without leading and trailing whitespace.
pub open spec fn spec_trim(l: Seq<char>) -> Seq<char> {
    spec_trim_end(spec_trim_start(l))
}

fn trim_start<'a>(l: &'a [char]) -> (r: &'a [char])
    ensures
        r@ == spec_trim_start(l@),
    decreases l.len(),
{
    if l.len() > 0 && is_space(l[0]) {
        let rest = &l[1..l.len()];
        proof {
            assert(rest@ =~= l@.drop_first());
        }
        trim_start(rest)
    } else {
        l
    }
}

fn trim_end<'a>(l: &'a [char]) -> (r: &'a [char])
    ensures
        r@ == spec_trim_end(l@),
    decreases l.len(),
{
    if l.len() > 0 && is_space(l[l.len() - 1]) {
        let rest = &l[0..l.len() - 1];
        proof {
            assert(rest@ =~= l@.drop_last());
        }
        trim_end(rest)
    } else {
        l
    }
}

fn trim<'a>(l: &'a [char]) -> (r: &'a [char])
    ensures
        r@ == spec_trim(l@),
{
    trim_end(trim_start(l))
}

fn slice_eq(a: &[char], b: &[char]) -> (r: bool)
    ensures
        r <==> a@ == b@,
{
    if a.len() != b.len() {
        return false;
    }
    let mut i: usize = 0;
    while i < a.len()
        invariant
            i <= a@.len(),
            a@.len() == b@.len(),
            forall|k: int| 0 <= k < i ==> a@[k] == b@[k],
        decreases a@.len() - i,
    {
        if a[i] != b[i] {
            return false;
        }
        i += 1;
    }
    proof {
        assert(a@ =~= b@);
    }
    true
}

/// Whether `l` ends with `suffix`.
pub open spec fn spec_ends_with(l: Seq<char>, suffix: Seq<char>) -> bool {
    l.len() >= suffix.len() && l.skip(l.len() - suffix.len()) == suffix
}

fn ends_with(l: &[char], suffix: &[char]) -> (r: bool)
    ensures
        r <==> spec_ends_with(l@, suffix@),
{
    if l.len() < suffix.len() {
        return false;
    }
    let tail = &l[l.len() - suffix.len()..l.len()];
    proof {
        assert(tail@ =~= l@.skip(l@.len() - suffix@.len()));
    }
    slice_eq(tail, suffix)
}

/// Whether `l` starts with `prefix`.
pub open spec fn spec_starts_with(l: Seq<char>, prefix: Seq<char>) -> bool {
    l.len() >= prefix.len() && l.take(prefix.len() as int) == prefix
}

fn starts_with(l: &[char], prefix: &[char]) -> (r: bool)
    ensures
        r <==> spec_starts_with(l@, prefix@),
{
    if l.len() < prefix.len() {
        return false;
    }
    let head = &l[0..prefix.len()];
    proof {
        assert(head@ =~= l@.take(prefix@.len() as int));
    }
    slice_eq(head, prefix)
}

/// The index of the first occurrence of `c` in `l`, or -1.
pub open spec fn spec_find_char(l: Seq<char>, c: char) -> int
    decreases l.len(),
{
    if l.len() == 0 {
        -1
    } else if l[0] == c {
        0
    } else {
        let r = spec_find_char(l.drop_first(), c);
        if r < 0 {
            -1
        } else {
            r + 1
        }
    }
}

fn find_char(l: &[char], c: char) -> (r: Option<usize>)
    ensures
        r matches Some(i) ==> i < l@.len() && spec_find_char(l@, c) == i,
        r is None ==> spec_find_char(l@, c) == -1,
    decreases l.len(),
{
    if l.len() == 0 {
        None
    } else if l[0] == c {
        Some(0)
    } else {
        let rest = &l[1..l.len()];
        proof {
            assert(rest@ =~= l@.drop_first());
        }
        match find_char(rest, c) {
            Some(i) => Some(i + 1),
            None => None,
        }
    }
}

/// Whether `l` holds the character `c` anywhere.
pub open spec fn spec_contains_char(l: Seq<char>, c: char) -> bool {
    exists|i: int| 0 <= i < l.len() && l[i] == c
}

fn contains_char(l: &[char], c: char) -> (r: bool)
    ensures
        r <==> spec_contains_char(l@, c),
{
    let mut i: usize = 0;
    while i < l.len()
        invariant
            i <= l@.len(),
            forall|k: int| 0 <= k < i ==> l@[k] != c,
        decreases l@.len() - i,
    {
        if l[i] == c {
            return true;
        }
        i += 1;
    }
    false
}

/// The index of the first occurrence of `key` as a contiguous substring
/// of `l`, or -1.
pub open spec fn spec_find_sub(l: Seq<char>, key: Seq<char>) -> int
    decreases l.len(),
{
    if key.len() == 0 {
        0
    } else if l.len() < key.len() {
        -1
    } else if l.take(key.len() as int) == key {
        0
    } else {
        let r = spec_find_sub(l.drop_first(), key);
        if r < 0 {
            -1
        } else {
            r + 1
        }
    }
}

fn find_sub(l: &[char], key: &[char]) -> (r: Option<usize>)
    ensures
        r matches Some(i) ==> i + key@.len() <= l@.len() && spec_find_sub(l@, key@) == i,
        r is None ==> spec_find_sub(l@, key@) == -1,
    decreases l.len(),
{
    if key.len() == 0 {
        Some(0)
    } else if l.len() < key.len() {
        None
    } else if starts_with(l, key) {
        Some(0)
    } else {
        let rest = &l[1..l.len()];
        proof {
            assert(rest@ =~= l@.drop_first());
        }
        match find_sub(rest, key) {
            Some(i) => Some(i + 1),
            None => None,
        }
    }
}

/// The first whitespace-separated token of `l`, if any.
pub open spec fn spec_first_token(l: Seq<char>) -> Option<Seq<char>> {
    let t = spec_trim_start(l);
    if t.len() == 0 {
        None
    } else {
        let e = spec_find_first_space(t);
        if e < 0 {
            Some(t)
        } else {
            Some(t.take(e))
        }
    }
}

/// The index of the first whitespace character, or -1.
pub open spec fn spec_find_first_space(l: Seq<char>) -> int
    decreases l.len(),
{
    if l.len() == 0 {
        -1
    } else if spec_is_space(l[0]) {
        0
    } else {
        let r = spec_find_first_space(l.drop_first());
        if r < 0 {
            -1
        } else {
            r + 1
        }
    }
}

fn find_first_space(l: &[char]) -> (r: Option<usize>)
    ensures
        r matches Some(i) ==> i < l@.len() && spec_find_first_space(l@) == i,
        r is None ==> spec_find_first_space(l@) == -1,
    decreases l.len(),
{
    if l.len() == 0 {
        None
    } else if is_space(l[0]) {
        Some(0)
    } else {
        let rest = &l[1..l.len()];
        proof {
            assert(rest@ =~= l@.drop_first());
        }
        match find_first_space(rest) {
            Some(i) => Some(i + 1),
            None => None,
        }
    }
}

fn first_token<'a>(l: &'a [char]) -> (r: Option<&'a [char]>)
    ensures
        r matches Some(t) ==> spec_first_token(l@) == Some(t@),
        r is None ==> spec_first_token(l@) is None,
{
    let t = trim_start(l);
    if t.len() == 0 {
        None
    } else {
        match find_first_space(t) {
            Some(e) => {
                let tok = &t[0..e];
                proof {
                    assert(tok@ =~= t@.take(e as int));
                }
                Some(tok)
            }
            None => Some(t),
        }
    }
}

// ---------------------------------------------------------------------
// Line splitting.
// ---------------------------------------------------------------------

/// A line with a trailing carriage return removed.
pub open spec fn spec_strip_cr(l: Seq<char>) -> Seq<char> {
    if l.len() > 0 && l.last() == '\r' {
        l.drop_last()
    } else {
        l
    }
}

/// The lines of `s`, split at newlines, each stripped of one trailing
/// carriage return; `cur` carries the line under construction.
pub open spec fn spec_lines_from(s: Seq<char>, cur: Seq<char>) -> Seq<Seq<char>>
    decreases s.len(),
{
    if s.len() == 0 {
        if cur.len() == 0 {
            Seq::empty()
        } else {
            seq![cur]
        }
    } else if s[0] == '\n' {
        seq![spec_strip_cr(cur)] + spec_lines_from(s.drop_first(), Seq::empty())
    } else {
        spec_lines_from(s.drop_first(), cur.push(s[0]))
    }
}

/// The lines of `s`.
pub open spec fn spec_lines(s: Seq<char>) -> Seq<Seq<char>> {
    spec_lines_from(s, Seq::empty())
}

/// The views of a vector of character vectors.
pub open spec fn line_views(lines: Seq<Vec<char>>) -> Seq<Seq<char>> {
    lines.map_values(|l: Vec<char>| l@)
}

fn split_lines(s: &[char]) -> (r: Vec<Vec<char>>)
    ensures
        line_views(r@) == spec_lines(s@),
{
    let mut out: Vec<Vec<char>> = Vec::new();
    let mut cur: Vec<char> = Vec::new();
    let mut i: usize = 0;
    proof {
        assert(s@.skip(0) =~= s@);
        assert(line_views(out@) + spec_lines_from(s@, cur@) =~= spec_lines_from(s@, cur@));
    }
    while i < s.len()
        invariant
            i <= s@.len(),
            spec_lines(s@) == line_views(out@) + spec_lines_from(s@.skip(i as int), cur@),
        decreases s@.len() - i,
    {
        let c = s[i];
        proof {
            assert(s@.skip(i as int).drop_first() =~= s@.skip(i + 1));
            assert(s@.skip(i as int)[0] == s@[i as int]);
        }
        if c == '\n' {
            let ghost cur0 = cur@;
            let ghost out0 = out@;
            let mut line = cur;
            if line.len() > 0 && line[line.len() - 1] == '\r' {
                line.pop();
            }
            proof {
                assert(line@ =~= spec_strip_cr(cur0));
            }
            out.push(line);
            cur = Vec::new();
            proof {
                assert(line_views(out@) =~= line_views(out0) + seq![spec_strip_cr(cur0)]);
                assert(line_views(out0) + (seq![spec_strip_cr(cur0)] + spec_lines_from(
                    s@.skip(i + 1),
                    Seq::empty(),
                )) =~= line_views(out@) + spec_lines_from(s@.skip(i + 1), Seq::empty()));
            }
        } else {
            cur.push(c);
        }
        i += 1;
    }
    proof {
        assert(s@.skip(s@.len() as int) =~= Seq::<char>::empty());
    }
    if cur.len() > 0 {
        let ghost out0 = out@;
        let ghost cur0 = cur@;
        out.push(cur);
        proof {
            assert(line_views(out@) =~= line_views(out0) + seq![cur0]);
        }
    } else {
        proof {
            assert(line_views(out@) + spec_lines_from(s@.skip(s@.len() as int), cur@)
                =~= line_views(out@));
        }
    }
    out
}

// ---------------------------------------------------------------------
// The inspect output: a line `id <number>, ...`.
// ---------------------------------------------------------------------

/// The node id a single inspect-output line yields: the line, trimmed,
/// must read `id `, then a number up to the first comma.
pub open spec fn spec_node_id_line(line: Seq<char>) -> Option<Seq<char>> {
    let t = spec_trim(line);
    if spec_starts_with(t, "id "@) {
        let rest = t.skip(3);
        let c = spec_find_char(rest, ',');
        let part = if c < 0 {
            rest
        } else {
            rest.take(c)
        };
        let id = spec_trim(part);
        if spec_all_digits(id) {
            Some(id)
        } else {
            None
        }
    } else {
        None
    }
}

/// The first line that yields a node id.
pub open spec fn spec_scan_node_id(lines: Seq<Seq<char>>) -> Option<Seq<char>>
    decreases lines.len(),
{
    if lines.len() == 0 {
        None
    } else {
        match spec_node_id_line(lines[0]) {
            Some(id) => Some(id),
            None => spec_scan_node_id(lines.drop_first()),
        }
    }
}

/// The node id in the inspect output: the first line reading
/// `id <number>`.
pub open spec fn spec_parse_node_id(s: Seq<char>) -> Option<Seq<char>> {
    spec_scan_node_id(spec_lines(s))
}

/// Whether every character is a decimal digit; an empty sequence counts.
pub open spec fn spec_all_digits(l: Seq<char>) -> bool {
    forall|i: int| 0 <= i < l.len() ==> spec_is_digit(l[i])
}

fn all_digits(l: &[char]) -> (r: bool)
    ensures
        r <==> spec_all_digits(l@),
{
    let mut i: usize = 0;
    while i < l.len()
        invariant
            i <= l@.len(),
            forall|k: int| 0 <= k < i ==> spec_is_digit(l@[k]),
        decreases l@.len() - i,
    {
        if !is_digit(l[i]) {
            return false;
        }
        i += 1;
    }
    true
}

fn node_id_line<'a>(line: &'a [char], key: &[char]) -> (r: Option<&'a [char]>)
    requires
        key@ == "id "@,
    ensures
        r matches Some(id) ==> spec_node_id_line(line@) == Some(id@),
        r is None ==> spec_node_id_line(line@) is None,
{
    proof {
        reveal_strlit("id ");
    }
    let t = trim(line);
    if starts_with(t, key) {
        let rest = &t[3..t.len()];
        proof {
            assert(rest@ =~= t@.skip(3));
        }
        let part = match find_char(rest, ',') {
            Some(c) => {
                let p = &rest[0..c];
                proof {
                    assert(p@ =~= rest@.take(c as int));
                }
                p
            }
            None => rest,
        };
        let id = trim(part);
        if all_digits(id) {
            Some(id)
        } else {
            None
        }
    } else {
        None
    }
}

/// Parse a node id out of the inspect output: the first line reading
/// `id <number>`, as the numeric id.
pub fn parse_wpctl_node_id(output: &str) -> (r: Option<String>)
    ensures
        r matches Some(id) ==> spec_parse_node_id(output@) == Some(id@),
        r is None ==> spec_parse_node_id(output@) is None,
{
    let chars = str_to_chars(output);
    let lines = split_lines(chars.as_slice());
    let key = str_to_chars("id ");
    let ghost all = spec_lines(output@);
    let mut i: usize = 0;
    proof {
        assert(all.skip(0) =~= all);
    }
    while i < lines.len()
        invariant
            i <= lines@.len(),
            line_views(lines@) == all,
            all == spec_lines(output@),
            key@ == "id "@,
            spec_scan_node_id(all) == spec_scan_node_id(all.skip(i as int)),
        decreases lines@.len() - i,
    {
        proof {
            assert(all.skip(i as int)[0] == line_views(lines@)[i as int]);
            assert(all.skip(i as int).drop_first() =~= all.skip(i + 1));
        }
        match node_id_line(lines[i].as_slice(), key.as_slice()) {
            Some(id) => {
                return Some(chars_to_string(id));
            }
            None => {}
        }
        i += 1;
    }
    proof {
        assert(all.skip(all.len() as int) =~= Seq::<Seq<char>>::empty());
    }
    None
}

// ---------------------------------------------------------------------
// The status listing: sections of `  *   61. name [vol ...]` lines.
// ---------------------------------------------------------------------

/// The index of the first decimal digit, or -1.
pub open spec fn spec_find_digit(l: Seq<char>) -> int
    decreases l.len(),
{
    if l.len() == 0 {
        -1
    } else if spec_is_digit(l[0]) {
        0
    } else {
        let r = spec_find_digit(l.drop_first());
        if r < 0 {
            -1
        } else {
            r + 1
        }
    }
}

fn find_digit(l: &[char]) -> (r: Option<usize>)
    ensures
        r matches Some(i) ==> i < l@.len() && spec_find_digit(l@) == i,
        r is None ==> spec_find_digit(l@) == -1,
    decreases l.len(),
{
    if l.len() == 0 {
        None
    } else if is_digit(l[0]) {
        Some(0)
    } else {
        let rest = &l[1..l.len()];
        proof {
            assert(rest@ =~= l@.drop_first());
        }
        match find_digit(rest) {
            Some(i) => Some(i + 1),
            None => None,
        }
    }
}

/// The first index at or after `i` that holds no digit, or the length.
pub open spec fn spec_digit_run_end(l: Seq<char>, i: int) -> int
    decreases l.len() - i,
{
    if 0 <= i < l.len() && spec_is_digit(l[i]) {
        spec_digit_run_end(l, i + 1)
    } else {
        i
    }
}

fn digit_run_end(l: &[char], i: usize) -> (r: usize)
    requires
        i <= l@.len(),
    ensures
        i <= r <= l@.len(),
        r == spec_digit_run_end(l@, i as int),
    decreases l.len() - i,
{
    if i < l.len() && is_digit(l[i]) {
        digit_run_end(l, i + 1)
    } else {
        i
    }
}

/// What a status node line yields: its numeric id, its name, and whether
/// it carries the default marker `*`. The id is the first digit run; the
/// name is the first word after the dot that closes the id.
pub open spec fn spec_status_node_line(l: Seq<char>) -> Option<(Seq<char>, Seq<char>, bool)> {
    let is_default = spec_contains_char(l, '*');
    let start = spec_find_digit(l);
    if start < 0 {
        None
    } else {
        let end = spec_digit_run_end(l, start);
        let id = l.subrange(start, end);
        let after_id = spec_trim_start(l.skip(end));
        if after_id.len() > 0 && after_id[0] == '.' {
            match spec_first_token(after_id.drop_first()) {
                Some(tok) => Some((id, tok, is_default)),
                None => None,
            }
        } else {
            None
        }
    }
}

fn status_node_line<'a>(l: &'a [char]) -> (r: Option<(&'a [char], &'a [char], bool)>)
    ensures
        r matches Some(n) ==> spec_status_node_line(l@) == Some((n.0@, n.1@, n.2)),
        r is None ==> spec_status_node_line(l@) is None,
{
    let is_default = contains_char(l, '*');
    let start = match find_digit(l) {
        Some(s) => s,
        None => {
            return None;
        }
    };
    let end = digit_run_end(l, start);
    let id = &l[start..end];
    proof {
        assert(id@ =~= l@.subrange(start as int, end as int));
    }
    let tail = &l[end..l.len()];
    proof {
        assert(tail@ =~= l@.skip(end as int));
    }
    let after_id = trim_start(tail);
    if after_id.len() > 0 && after_id[0] == '.' {
        let after_dot = &after_id[1..after_id.len()];
        proof {
            assert(after_dot@ =~= after_id@.drop_first());
        }
        match first_token(after_dot) {
            Some(tok) => Some((id, tok, is_default)),
            None => None,
        }
    } else {
        None
    }
}

/// Parse one status listing line into (id, name, default-marked).
pub fn parse_wpctl_status_node_line(line: &str) -> (r: Option<(String, String, bool)>)
    ensures
        r matches Some(n) ==> spec_status_node_line(line@) == Some((n.0@, n.1@, n.2)),
        r is None ==> spec_status_node_line(line@) is None,
{
    let chars = str_to_chars(line);
    match status_node_line(chars.as_slice()) {
        Some((id, name, is_default)) => Some(
            (chars_to_string(id), chars_to_string(name), is_default),
        ),
        None => None,
    }
}

/// The section label whose devices serve a target kind.
pub open spec fn spec_section_label(kind: TargetKind) -> Seq<char> {
    match kind {
        TargetKind::System => "Sinks:"@,
        TargetKind::Microphone => "Sources:"@,
    }
}

/// The configured-default key of a target kind.
pub open spec fn spec_configured_key(kind: TargetKind) -> Seq<char> {
    match kind {
        TargetKind::System => "Audio/Sink"@,
        TargetKind::Microphone => "Audio/Source"@,
    }
}

/// The nodes listed under the section named `label`: collection starts
/// past a line ending with the label and stops at the filter or stream
/// sections; every line in between that parses as a node counts.
pub open spec fn spec_section_nodes(
    lines: Seq<Seq<char>>,
    in_section: bool,
    label: Seq<char>,
) -> Seq<(Seq<char>, Seq<char>, bool)>
    decreases lines.len(),
{
    if lines.len() == 0 {
        Seq::empty()
    } else {
        let t = spec_trim(lines[0]);
        if spec_ends_with(t, label) {
            spec_section_nodes(lines.drop_first(), true, label)
        } else if !in_section {
            spec_section_nodes(lines.drop_first(), false, label)
        } else if spec_ends_with(t, "Filters:"@) || spec_ends_with(t, "Streams:"@) {
            Seq::empty()
        } else {
            match spec_status_node_line(t) {
                Some(n) => seq![n] + spec_section_nodes(lines.drop_first(), true, label),
                None => spec_section_nodes(lines.drop_first(), true, label),
            }
        }
    }
}

/// The id of the first default-marked node, if any.
pub open spec fn spec_first_default(nodes: Seq<(Seq<char>, Seq<char>, bool)>) -> Option<Seq<char>>
    decreases nodes.len(),
{
    if nodes.len() == 0 {
        None
    } else if nodes[0].2 {
        Some(nodes[0].0)
    } else {
        spec_first_default(nodes.drop_first())
    }
}

/// The id of the first node whose name equals `name`, if any.
pub open spec fn spec_first_named(nodes: Seq<(Seq<char>, Seq<char>, bool)>, name: Seq<char>)
    -> Option<Seq<char>>
    decreases nodes.len(),
{
    if nodes.len() == 0 {
        None
    } else if nodes[0].1 == name {
        Some(nodes[0].0)
    } else {
        spec_first_named(nodes.drop_first(), name)
    }
}

/// What a line contributes to the configured-default-name lookup: the
/// first word after the key, where the line holds the key and a word
/// follows.
pub open spec fn spec_conf_line(l: Seq<char>, key: Seq<char>) -> Option<Seq<char>> {
    let t = spec_trim(l);
    let f = spec_find_sub(t, key);
    if f < 0 {
        None
    } else {
        spec_first_token(t.skip(f + key.len()))
    }
}

/// The first line that yields a configured default name.
pub open spec fn spec_scan_conf(lines: Seq<Seq<char>>, key: Seq<char>) -> Option<Seq<char>>
    decreases lines.len(),
{
    if lines.len() == 0 {
        None
    } else {
        match spec_conf_line(lines[0], key) {
            Some(name) => Some(name),
            None => spec_scan_conf(lines.drop_first(), key),
        }
    }
}

/// The configured default device name for a target kind, read from the
/// settings section of the status output.
pub open spec fn spec_configured_default_name(s: Seq<char>, kind: TargetKind) -> Option<Seq<char>> {
    spec_scan_conf(spec_lines(s), spec_configured_key(kind))
}

fn conf_line<'a>(l: &'a [char], key: &[char]) -> (r: Option<&'a [char]>)
    ensures
        r matches Some(name) ==> spec_conf_line(l@, key@) == Some(name@),
        r is None ==> spec_conf_line(l@, key@) is None,
{
    let t = trim(l);
    match find_sub(t, key) {
        Some(f) => {
            proof {
                assert(f + key@.len() <= t@.len());
            }
            let kl: usize = key.len();
            let tl: usize = t.len();
            let start: usize = f + kl;
            let after = &t[start..tl];
            proof {
                assert(after@ =~= t@.skip(f + key@.len()));
            }
            first_token(after)
        }
        None => None,
    }
}

/// Parse the configured default device name for a target kind out of the
/// status output.
pub fn parse_wpctl_configured_default_name(output: &str, kind: TargetKind) -> (r: Option<String>)
    ensures
        r matches Some(name) ==> spec_configured_default_name(output@, kind) == Some(name@),
        r is None ==> spec_configured_default_name(output@, kind) is None,
{
    let chars = str_to_chars(output);
    let lines = split_lines(chars.as_slice());
    let key = match kind {
        TargetKind::System => str_to_chars("Audio/Sink"),
        TargetKind::Microphone => str_to_chars("Audio/Source"),
    };
    let ghost all = spec_lines(output@);
    let ghost k = spec_configured_key(kind);
    let mut i: usize = 0;
    proof {
        assert(all.skip(0) =~= all);
    }
    while i < lines.len()
        invariant
            i <= lines@.len(),
            line_views(lines@) == all,
            all == spec_lines(output@),
            key@ == k,
            k == spec_configured_key(kind),
            spec_scan_conf(all, k) == spec_scan_conf(all.skip(i as int), k),
        decreases lines@.len() - i,
    {
        proof {
            assert(all.skip(i as int)[0] == line_views(lines@)[i as int]);
            assert(all.skip(i as int).drop_first() =~= all.skip(i + 1));
        }
        match conf_line(lines[i].as_slice(), key.as_slice()) {
            Some(name) => {
                return Some(chars_to_string(name));
            }
            None => {}
        }
        i += 1;
    }
    proof {
        assert(all.skip(all.len() as int) =~= Seq::<Seq<char>>::empty());
    }
    None
}

/// The views of collected nodes.
pub open spec fn node_views(nodes: Seq<(Vec<char>, Vec<char>, bool)>) -> Seq<
    (Seq<char>, Seq<char>, bool),
> {
    nodes.map_values(|n: (Vec<char>, Vec<char>, bool)| (n.0@, n.1@, n.2))
}

/// The default device id a status listing yields for a target kind:
/// among the nodes of the kind's section, the first default-marked one;
/// else the one named like the configured default; else the first
/// listed; else nothing.
pub open spec fn spec_status_default_id(s: Seq<char>, kind: TargetKind) -> Option<Seq<char>> {
    let nodes = spec_section_nodes(spec_lines(s), false, spec_section_label(kind));
    let by_name = match spec_configured_default_name(s, kind) {
        Some(conf) => spec_first_named(nodes, conf),
        None => None,
    };
    if spec_first_default(nodes) is Some {
        spec_first_default(nodes)
    } else if by_name is Some {
        by_name
    } else if nodes.len() > 0 {
        Some(nodes[0].0)
    } else {
        None
    }
}

fn collect_section_nodes(lines: &Vec<Vec<char>>, label: &[char]) -> (nodes: Vec<
    (Vec<char>, Vec<char>, bool),
>)
    ensures
        node_views(nodes@) == spec_section_nodes(line_views(lines@), false, label@),
{
    let ghost all = line_views(lines@);
    let filters_key = str_to_chars("Filters:");
    let streams_key = str_to_chars("Streams:");
    let mut nodes: Vec<(Vec<char>, Vec<char>, bool)> = Vec::new();
    let mut in_section = false;
    let mut done = false;
    let mut i: usize = 0;
    proof {
        assert(all.skip(0) =~= all);
        assert(node_views(nodes@) + spec_section_nodes(all, false, label@) =~= spec_section_nodes(
            all,
            false,
            label@,
        ));
    }
    while i < lines.len() && !done
        invariant
            i <= lines@.len(),
            all == line_views(lines@),
            filters_key@ == "Filters:"@,
            streams_key@ == "Streams:"@,
            done ==> spec_section_nodes(all, false, label@) == node_views(nodes@),
            !done ==> spec_section_nodes(all, false, label@) == node_views(nodes@)
                + spec_section_nodes(all.skip(i as int), in_section, label@),
        decreases lines@.len() - i,
    {
        proof {
            assert(all.skip(i as int)[0] == line_views(lines@)[i as int]);
            assert(all.skip(i as int).drop_first() =~= all.skip(i + 1));
        }
        let t = trim(lines[i].as_slice());
        if ends_with(t, label) {
            in_section = true;
        } else if !in_section {
            // outside every section: skip
        } else if ends_with(t, filters_key.as_slice()) || ends_with(t, streams_key.as_slice()) {
            done = true;
        } else {
            match status_node_line(t) {
                Some((id, name, is_default)) => {
                    let ghost nodes0 = nodes@;
                    let node = (slice_to_vec(id), slice_to_vec(name), is_default);
                    proof {
                        assert((node.0@, node.1@, node.2) == spec_status_node_line(
                            spec_trim(all.skip(i as int)[0]),
                        )->Some_0);
                    }
                    nodes.push(node);
                    proof {
                        assert(node_views(nodes@) =~= node_views(nodes0) + seq![
                            (node.0@, node.1@, node.2),
                        ]);
                        assert(node_views(nodes0) + (seq![(node.0@, node.1@, node.2)]
                            + spec_section_nodes(all.skip(i + 1), true, label@)) =~= node_views(
                            nodes@,
                        ) + spec_section_nodes(all.skip(i + 1), true, label@));
                    }
                }
                None => {}
            }
        }
        i += 1;
    }
    proof {
        if !done {
            assert(all.skip(all.len() as int) =~= Seq::<Seq<char>>::empty());
            assert(node_views(nodes@) + spec_section_nodes(
                all.skip(all.len() as int),
                in_section,
                label@,
            ) =~= node_views(nodes@));
        }
    }
    nodes
}

/// Parse the default device id for a target kind out of the full status
/// listing, by the fallback order: default-marked, then configured name,
/// then first listed.
#[verifier::rlimit(100)]
pub fn parse_wpctl_status_default_node_id(output: &str, kind: TargetKind) -> (r: Option<String>)
    ensures
        r matches Some(id) ==> spec_status_default_id(output@, kind) == Some(id@),
        r is None ==> spec_status_default_id(output@, kind) is None,
{
    let chars = str_to_chars(output);
    let lines = split_lines(chars.as_slice());
    let label = match kind {
        TargetKind::System => str_to_chars("Sinks:"),
        TargetKind::Microphone => str_to_chars("Sources:"),
    };
    let nodes = collect_section_nodes(&lines, label.as_slice());
    let ghost spec_nodes = spec_section_nodes(spec_lines(output@), false, spec_section_label(kind));
    proof {
        assert(node_views(nodes@) == spec_nodes);
    }

    // First: a node flagged as the default.
    let mut i: usize = 0;
    proof {
        assert(spec_nodes.skip(0) =~= spec_nodes);
    }
    while i < nodes.len()
        invariant
            i <= nodes@.len(),
            node_views(nodes@) == spec_nodes,
            spec_nodes == spec_section_nodes(spec_lines(output@), false, spec_section_label(kind)),
            spec_first_default(spec_nodes) == spec_first_default(spec_nodes.skip(i as int)),
        decreases nodes@.len() - i,
    {
        proof {
            assert(spec_nodes.skip(i as int)[0] == node_views(nodes@)[i as int]);
            assert(spec_nodes.skip(i as int).drop_first() =~= spec_nodes.skip(i + 1));
        }
        if nodes[i].2 {
            proof {
                assert(spec_first_default(spec_nodes) == Some(nodes@[i as int].0@));
            }
            return Some(chars_to_string(nodes[i].0.as_slice()));
        }
        i += 1;
    }
    proof {
        assert(spec_nodes.skip(spec_nodes.len() as int) =~= Seq::<(Seq<char>, Seq<char>, bool)>::empty());
        assert(spec_first_default(spec_nodes) is None);
    }

    // Second: the node whose name equals the configured default name.
    match parse_wpctl_configured_default_name(output, kind) {
        Some(conf) => {
            let conf_chars = str_to_chars(conf.as_str());
            let mut i: usize = 0;
            proof {
                assert(spec_nodes.skip(0) =~= spec_nodes);
            }
            while i < nodes.len()
                invariant
                    i <= nodes@.len(),
                    node_views(nodes@) == spec_nodes,
                    spec_nodes == spec_section_nodes(
                        spec_lines(output@),
                        false,
                        spec_section_label(kind),
                    ),
                    conf_chars@ == conf@,
                    spec_configured_default_name(output@, kind) == Some(conf@),
                    spec_first_default(spec_nodes) is None,
                    spec_first_named(spec_nodes, conf@) == spec_first_named(
                        spec_nodes.skip(i as int),
                        conf@,
                    ),
                decreases nodes@.len() - i,
            {
                proof {
                    assert(spec_nodes.skip(i as int)[0] == node_views(nodes@)[i as int]);
                    assert(spec_nodes.skip(i as int).drop_first() =~= spec_nodes.skip(i + 1));
                }
                if slice_eq(nodes[i].1.as_slice(), conf_chars.as_slice()) {
                    return Some(chars_to_string(nodes[i].0.as_slice()));
                }
                i += 1;
            }
            proof {
                assert(spec_nodes.skip(spec_nodes.len() as int) =~= Seq::<
                    (Seq<char>, Seq<char>, bool),
                >::empty());
                assert(spec_first_named(spec_nodes, conf@) is None);
            }
        }
        None => {}
    }

    // Last: the first node listed at all.
    if nodes.len() > 0 {
        return Some(chars_to_string(nodes[0].0.as_slice()));
    }
    None
}

// ---------------------------------------------------------------------
// The fallback chain.
// ---------------------------------------------------------------------

/// The static alias handed to the recording tool when no concrete id
/// could be resolved.
pub open spec fn spec_fallback_alias(kind: TargetKind) -> Seq<char> {
    match kind {
        TargetKind::System => "@DEFAULT_AUDIO_SINK.monitor"@,
        TargetKind::Microphone => "@DEFAULT_AUDIO_SOURCE@"@,
    }
}

/// The id the inspect step of the chain yields, where its output is at
/// hand and parses.
pub open spec fn spec_inspect_step(inspect_output: Option<Seq<char>>) -> Option<Seq<char>> {
    match inspect_output {
        Some(o) => spec_parse_node_id(o),
        None => None,
    }
}

/// The id the status-listing step of the chain yields, where its output
/// is at hand and parses.
pub open spec fn spec_status_step(status_output: Option<Seq<char>>, kind: TargetKind) -> Option<
    Seq<char>,
> {
    match status_output {
        Some(o) => spec_status_default_id(o, kind),
        None => None,
    }
}

/// The view of an optional borrowed string.
pub open spec fn opt_view(o: Option<&str>) -> Option<Seq<char>> {
    match o {
        Some(s) => Some(s@),
        None => None,
    }
}

/// Resolve one capture target through the fallback chain, from the
/// device-management tool's outputs: the inspect query on the default
/// alias first; then the full status listing; and the static alias when
/// both fail. The resolution method tags which step answered.
pub fn resolve_target(
    kind: TargetKind,
    inspect_output: Option<&str>,
    status_output: Option<&str>,
) -> (r: ResolvedCaptureTarget)
    ensures
        r.kind == kind,
        spec_inspect_step(opt_view(inspect_output)) matches Some(id) ==> r.method
            == TargetResolutionMethod::WpctlInspect && r.target@ == id,
        spec_inspect_step(opt_view(inspect_output)) is None ==> (spec_status_step(
            opt_view(status_output),
            kind,
        ) matches Some(id) ==> r.method == TargetResolutionMethod::WpctlStatus && r.target@ == id),
        spec_inspect_step(opt_view(inspect_output)) is None && spec_status_step(
            opt_view(status_output),
            kind,
        ) is None ==> r.method == TargetResolutionMethod::FallbackAlias && r.target@
            == spec_fallback_alias(kind),
{
    if let Some(o) = inspect_output {
        if let Some(id) = parse_wpctl_node_id(o) {
            return ResolvedCaptureTarget {
                kind,
                target: id,
                method: TargetResolutionMethod::WpctlInspect,
            };
        }
    }

    if let Some(o) = status_output {
        if let Some(id) = parse_wpctl_status_default_node_id(o, kind) {
            return ResolvedCaptureTarget {
                kind,
                target: id,
                method: TargetResolutionMethod::WpctlStatus,
            };
        }
    }

    let mut target = String::new();
    match kind {
        TargetKind::System => target.append("@DEFAULT_AUDIO_SINK.monitor"),
        TargetKind::Microphone => target.append("@DEFAULT_AUDIO_SOURCE@"),
    }
    ResolvedCaptureTarget { kind, target, method: TargetResolutionMethod::FallbackAlias }
}

/// The requested targets in order — system first, then microphone —
/// each resolved through the given resolver.
pub fn capture_targets_with_resolver<F: Fn(TargetKind) -> ResolvedCaptureTarget>(
    capture_system: bool,
    capture_microphone: bool,
    resolver: F,
) -> (r: Vec<ResolvedCaptureTarget>)
    requires
        capture_system ==> call_requires(resolver, (TargetKind::System,)),
        capture_microphone ==> call_requires(resolver, (TargetKind::Microphone,)),
    ensures
        r@.len() == (if capture_system {
            1int
        } else {
            0int
        }) + (if capture_microphone {
            1int
        } else {
            0int
        }),
        capture_system ==> call_ensures(resolver, (TargetKind::System,), r@[0]),
        capture_microphone ==> call_ensures(
            resolver,
            (TargetKind::Microphone,),
            r@[r@.len() - 1],
        ),
{
    let mut targets: Vec<ResolvedCaptureTarget> = Vec::new();
    if capture_system {
        targets.push(resolver(TargetKind::System));
    }
    if capture_microphone {
        targets.push(resolver(TargetKind::Microphone));
    }
    targets
}

/// The target id or alias of each requested capture source, in order.
pub fn capture_targets<F: Fn(TargetKind) -> ResolvedCaptureTarget>(
    capture_system: bool,
    capture_microphone: bool,
    resolver: F,
) -> (r: Vec<String>)
    requires
        capture_system ==> call_requires(resolver, (TargetKind::System,)),
        capture_microphone ==> call_requires(resolver, (TargetKind::Microphone,)),
    ensures
        r@.len() == (if capture_system {
            1int
        } else {
            0int
        }) + (if capture_microphone {
            1int
        } else {
            0int
        }),
        capture_system ==> (exists|t: ResolvedCaptureTarget|
            call_ensures(resolver, (TargetKind::System,), t) && r@[0] == t.target),
        capture_microphone ==> (exists|t: ResolvedCaptureTarget|
            call_ensures(resolver, (TargetKind::Microphone,), t) && r@[r@.len() - 1] == t.target),
{
    let resolved = capture_targets_with_resolver(capture_system, capture_microphone, resolver);
    let mut out: Vec<String> = Vec::new();
    let mut i: usize = 0;
    while i < resolved.len()
        invariant
            i <= resolved@.len(),
            out@.len() == i,
            forall|k: int| 0 <= k < i ==> out@[k] == resolved@[k].target,
        decreases resolved@.len() - i,
    {
        let t = resolved[i].target.clone();
        proof {
            assert(t == resolved@[i as int].target);
        }
        out.push(t);
        i += 1;
    }
    proof {
        if capture_system {
            let w = resolved@[0];
            assert(call_ensures(resolver, (TargetKind::System,), w) && out@[0] == w.target);
        }
        if capture_microphone {
            let w = resolved@[resolved@.len() - 1];
            assert(call_ensures(resolver, (TargetKind::Microphone,), w) && out@[out@.len() - 1]
                == w.target);
        }
    }
    out
}

} // verus!
