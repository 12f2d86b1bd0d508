//! The routing engine: resolves a task name to a target queue using ordered
//! glob-pattern rules.
//!
//! Each rule pairs a shell-style glob over task names (`*`, `?`, character
//! classes such as `[abc]`, `[a-z]`, `[!0-9]`) with a target queue.  Rules
//! are scanned in registration order and the first match wins; a name no
//! rule matches falls back to the configured default queue, or fails with
//! `UnknownQueueError` if none is configured.  An explicit queue override
//! wins unconditionally.  Patterns are validated once at startup —
//! a malformed pattern is `BadRoutingRulePatternError`, fatal at startup,
//! not at dispatch time.  Resolution itself is a pure function.

use vstd::prelude::*;
use vstd::string::StrSliceExecFns;

use crate::error::{CeleryError, ErrorKind};

verus! {

/// The first index `j >= i` with `p[j] == ']'`, or -1 if there is none.
pub open spec fn find_close_from(p: Seq<char>, i: int) -> int
    decreases p.len() - i,
{
    if i < 0 || i >= p.len() {
        -1
    } else if p[i] == ']' {
        i
    } else {
        find_close_from(p, i + 1)
    }
}

/// `find_close_from` yields -1 or an index of `]` within the pattern.
pub proof fn lemma_find_close_bounds(p: Seq<char>, i: int)
    ensures
        find_close_from(p, i) == -1 || (i <= find_close_from(p, i) < p.len() && p[find_close_from(
            p,
            i,
        )] == ']'),
    decreases p.len() - i,
{
    if 0 <= i < p.len() && p[i] != ']' {
        lemma_find_close_bounds(p, i + 1);
    }
}

/// Whether the character class opening at `pi` is negated (`[!...]`).
pub open spec fn class_negated(p: Seq<char>, pi: int) -> bool {
    pi + 1 < p.len() && p[pi + 1] == '!'
}

/// The index of the first member of the class opening at `pi`.
pub open spec fn class_body_start(p: Seq<char>, pi: int) -> int {
    if class_negated(p, pi) {
        pi + 2
    } else {
        pi + 1
    }
}

/// The index of the `]` closing the class opening at `pi`, or -1 if the
/// class is unterminated.  The first member is taken literally, so `[]]` is
/// the class holding `]`.
pub open spec fn class_close(p: Seq<char>, pi: int) -> int {
    if class_body_start(p, pi) >= p.len() {
        -1
    } else {
        find_close_from(p, class_body_start(p, pi) + 1)
    }
}

/// A well-formed class spans at least `[x]`: its `]` lies past its first
/// member and inside the pattern.
pub proof fn lemma_class_close_bounds(p: Seq<char>, pi: int)
    requires
        0 <= pi < p.len(),
    ensures
        class_close(p, pi) == -1 || pi + 2 <= class_close(p, pi) < p.len(),
{
    if class_body_start(p, pi) < p.len() {
        lemma_find_close_bounds(p, class_body_start(p, pi) + 1);
    }
}

/// Whether `c` is a member of the class body `p[i..end)`: a member is a
/// single character, or a range `lo-hi` taken inclusively.  A trailing `-`
/// is a literal member.
pub open spec fn in_class_from(p: Seq<char>, i: int, end: int, c: char) -> bool
    decreases end - i,
{
    if i < 0 || i >= end {
        false
    } else if i + 2 < end && p[i + 1] == '-' {
        (p[i] as u32 <= c as u32 && c as u32 <= p[i + 2] as u32) || in_class_from(p, i + 3, end, c)
    } else {
        p[i] == c || in_class_from(p, i + 1, end, c)
    }
}

/// Whether the pattern suffix from `pi` matches the name suffix from `si`.
///
/// `*` matches any run of characters, `?` any single character, a class one
/// character among its members (or outside them, if negated), and any other
/// character itself.  A pattern with an unterminated class matches nothing.
pub open spec fn glob_from(p: Seq<char>, pi: int, s: Seq<char>, si: int) -> bool
    decreases p.len() - pi, s.len() - si,
    via glob_from_decreases
{
    if pi < 0 || si < 0 || pi >= p.len() {
        si == s.len()
    } else if p[pi] == '*' {
        glob_from(p, pi + 1, s, si) || (si < s.len() && glob_from(p, pi, s, si + 1))
    } else if p[pi] == '?' {
        si < s.len() && glob_from(p, pi + 1, s, si + 1)
    } else if p[pi] == '[' {
        let close = class_close(p, pi);
        if close < 0 {
            false
        } else {
            si < s.len() && (in_class_from(p, class_body_start(p, pi), close, s[si])
                != class_negated(p, pi)) && glob_from(p, close + 1, s, si + 1)
        }
    } else {
        si < s.len() && s[si] == p[pi] && glob_from(p, pi + 1, s, si + 1)
    }
}

#[via_fn]
proof fn glob_from_decreases(p: Seq<char>, pi: int, s: Seq<char>, si: int) {
    if 0 <= pi < p.len() {
        lemma_class_close_bounds(p, pi);
    }
}

/// Whether the glob `p` matches the whole name `s`.
pub open spec fn spec_glob_matches(p: Seq<char>, s: Seq<char>) -> bool {
    glob_from(p, 0, s, 0)
}

/// Whether every class in the pattern suffix from `pi` is terminated.
pub open spec fn wf_from(p: Seq<char>, pi: int) -> bool
    decreases p.len() - pi,
    via wf_from_decreases
{
    if pi < 0 || pi >= p.len() {
        true
    } else if p[pi] == '[' {
        class_close(p, pi) >= 0 && wf_from(p, class_close(p, pi) + 1)
    } else {
        wf_from(p, pi + 1)
    }
}

#[via_fn]
proof fn wf_from_decreases(p: Seq<char>, pi: int) {
    if 0 <= pi < p.len() {
        lemma_class_close_bounds(p, pi);
    }
}

/// Whether the glob pattern is well formed: every class is terminated.
pub open spec fn wf_pattern(p: Seq<char>) -> bool {
    wf_from(p, 0)
}

/// The first index `j >= i` of `]`, executably.
fn find_close(p: &str, pn: usize, i: usize) -> (r: Option<usize>)
    requires
        pn == p@.len(),
        i <= pn,
    ensures
        match r {
            Some(j) => i <= j < pn && find_close_from(p@, i as int) == j,
            None => find_close_from(p@, i as int) == -1,
        },
{
    let mut j = i;
    while j < pn
        invariant
            pn == p@.len(),
            i <= j <= pn,
            find_close_from(p@, i as int) == find_close_from(p@, j as int),
        decreases pn - j,
    {
        if p.get_char(j) == ']' {
            return Some(j);
        }
        j = j + 1;
    }
    None
}

/// Parse the class opening at `pi`: its negation, the index of its first
/// member, and the index of its `]`.  `None` for an unterminated class.
fn scan_class(p: &str, pn: usize, pi: usize) -> (r: Option<(bool, usize, usize)>)
    requires
        pn == p@.len(),
        pi < pn,
        p@[pi as int] == '[',
    ensures
        match r {
            Some(t) => {
                &&& t.0 == class_negated(p@, pi as int)
                &&& t.1 == class_body_start(p@, pi as int)
                &&& t.2 == class_close(p@, pi as int)
                &&& pi + 2 <= t.2 < pn
                &&& t.1 < t.2
            },
            None => class_close(p@, pi as int) < 0,
        },
{
    let neg = pi + 1 < pn && p.get_char(pi + 1) == '!';
    let bs = if neg {
        pi + 2
    } else {
        pi + 1
    };
    if bs >= pn {
        return None;
    }
    match find_close(p, pn, bs + 1) {
        Some(j) => Some((neg, bs, j)),
        None => None,
    }
}

/// Whether `c` is a member of the class body `p[i..end)`, executably.
fn in_class(p: &str, i: usize, end: usize, c: char) -> (r: bool)
    requires
        end <= p@.len(),
    ensures
        r == in_class_from(p@, i as int, end as int, c),
    decreases end - i,
{
    if i >= end {
        false
    } else if end - i > 2 && p.get_char(i + 1) == '-' {
        let lo = p.get_char(i);
        let hi = p.get_char(i + 2);
        if lo as u32 <= c as u32 && c as u32 <= hi as u32 {
            true
        } else {
            in_class(p, i + 3, end, c)
        }
    } else {
        if p.get_char(i) == c {
            true
        } else {
            in_class(p, i + 1, end, c)
        }
    }
}

/// Whether the pattern suffix from `pi` matches the name suffix from `si`,
/// executably.
fn match_from(p: &str, pn: usize, pi: usize, s: &str, sn: usize, si: usize) -> (r: bool)
    requires
        pn == p@.len(),
        sn == s@.len(),
        pi <= pn,
        si <= sn,
    ensures
        r == glob_from(p@, pi as int, s@, si as int),
    decreases pn - pi, sn - si,
{
    if pi >= pn {
        si == sn
    } else {
        let c = p.get_char(pi);
        if c == '*' {
            if match_from(p, pn, pi + 1, s, sn, si) {
                true
            } else if si < sn {
                match_from(p, pn, pi, s, sn, si + 1)
            } else {
                false
            }
        } else if c == '?' {
            si < sn && match_from(p, pn, pi + 1, s, sn, si + 1)
        } else if c == '[' {
            match scan_class(p, pn, pi) {
                None => false,
                Some((neg, bs, close)) => {
                    if si < sn {
                        let member = in_class(p, bs, close, s.get_char(si));
                        if member != neg {
                            match_from(p, pn, close + 1, s, sn, si + 1)
                        } else {
                            false
                        }
                    } else {
                        false
                    }
                },
            }
        } else {
            if si < sn && s.get_char(si) == c {
                match_from(p, pn, pi + 1, s, sn, si + 1)
            } else {
                false
            }
        }
    }
}

/// Whether the glob `pattern` matches the whole `name`.
pub fn glob_match(pattern: &str, name: &str) -> (r: bool)
    ensures
        r == spec_glob_matches(pattern@, name@),
{
    let pn = pattern.unicode_len();
    let sn = name.unicode_len();
    match_from(pattern, pn, 0, name, sn, 0)
}

/// Whether every class in `pattern` is terminated, executably.
fn wf_check_from(p: &str, pn: usize, pi: usize) -> (r: bool)
    requires
        pn == p@.len(),
        pi <= pn,
    ensures
        r == wf_from(p@, pi as int),
    decreases pn - pi,
{
    if pi >= pn {
        true
    } else if p.get_char(pi) == '[' {
        match scan_class(p, pn, pi) {
            None => false,
            Some((_, _, close)) => wf_check_from(p, pn, close + 1),
        }
    } else {
        wf_check_from(p, pn, pi + 1)
    }
}

/// Whether the glob pattern is well formed.
pub fn pattern_ok(pattern: &str) -> (r: bool)
    ensures
        r == wf_pattern(pattern@),
{
    let pn = pattern.unicode_len();
    wf_check_from(pattern, pn, 0)
}

/// One routing rule: a glob over task names, and the queue matching tasks
/// are routed to.
#[derive(Debug)]
pub struct Rule {
    pub pattern: String,
    pub queue: String,
}

impl Rule {
    pub fn new(pattern: String, queue: String) -> (r: Rule)
        ensures
            r.pattern == pattern,
            r.queue == queue,
    {
        Rule { pattern, queue }
    }
}

/// The index of the first rule at or past `i` whose pattern matches `name`,
/// or -1 if none does.
pub open spec fn spec_first_match(rules: Seq<Rule>, i: int, name: Seq<char>) -> int
    decreases rules.len() - i,
{
    if i < 0 || i >= rules.len() {
        -1
    } else if spec_glob_matches(rules[i].pattern@, name) {
        i
    } else {
        spec_first_match(rules, i + 1, name)
    }
}

/// The index of the first rule at or past `i` whose pattern is malformed,
/// or -1 if none is.
pub open spec fn spec_first_bad(rules: Seq<Rule>, i: int) -> int
    decreases rules.len() - i,
{
    if i < 0 || i >= rules.len() {
        -1
    } else if !wf_pattern(rules[i].pattern@) {
        i
    } else {
        spec_first_bad(rules, i + 1)
    }
}

/// The routing engine: the ordered rules and the optional default queue.
/// Immutable after startup.
#[derive(Debug)]
pub struct Router {
    pub rules: Vec<Rule>,
    pub default_queue: Option<String>,
}

impl Router {
    /// Every rule's pattern is well formed.
    pub open spec fn wf(&self) -> bool {
        forall|i: int| 0 <= i < self.rules@.len() ==> wf_pattern(self.rules@[i].pattern@)
    }

    /// Build the routing engine, validating every pattern.  A malformed
    /// pattern fails with `BadRoutingRulePatternError` naming the first bad
    /// pattern; this is fatal at startup, never at dispatch time.
    pub fn new(rules: Vec<Rule>, default_queue: Option<String>) -> (r: Result<Router, CeleryError>)
        ensures
            spec_first_bad(rules@, 0) == -1 ==> (r matches Ok(router) && router.rules@ == rules@
                && router.default_queue == default_queue && router.wf()),
            spec_first_bad(rules@, 0) >= 0 ==> (r matches Err(e) && (
            e.kind matches ErrorKind::BadRoutingRulePatternError(Some(pt)) && pt@ == rules@[
                spec_first_bad(rules@, 0)
            ].pattern@)),
    {
        let n = rules.len();
        let mut i: usize = 0;
        while i < n
            invariant
                i <= n,
                n == rules@.len(),
                spec_first_bad(rules@, 0) == spec_first_bad(rules@, i as int),
                forall|k: int| 0 <= k < i ==> wf_pattern(rules@[k].pattern@),
            decreases n - i,
        {
            if !pattern_ok(rules[i].pattern.as_str()) {
                return Err(
                    CeleryError::new(
                        ErrorKind::BadRoutingRulePatternError(Some(rules[i].pattern.clone())),
                    ),
                );
            }
            i = i + 1;
        }
        Ok(Router { rules, default_queue })
    }

    /// Resolve a task name to its target queue.  An explicit override wins
    /// unconditionally; otherwise the first matching rule's queue is
    /// returned; a name no rule matches goes to the default queue; with no
    /// default configured, resolution fails with `UnknownQueueError`.
    pub fn resolve(&self, task_name: &String, queue_override: Option<&String>) -> (r: Result<
        String,
        CeleryError,
    >)
        ensures
            queue_override matches Some(q) ==> (r matches Ok(out) && out@ == q@),
            queue_override is None ==> {
                let m = spec_first_match(self.rules@, 0, task_name@);
                &&& m >= 0 ==> (r matches Ok(out) && out@ == self.rules@[m].queue@)
                &&& m == -1 ==> (self.default_queue matches Some(d) ==> (r matches Ok(out) && out@
                    == d@))
                &&& (m == -1 && self.default_queue is None) ==> (r matches Err(e) && (
                e.kind matches ErrorKind::UnknownQueueError(t) && t@ == task_name@))
            },
    {
        if let Some(q) = queue_override {
            return Ok(q.clone());
        }
        let n = self.rules.len();
        let mut i: usize = 0;
        while i < n
            invariant
                queue_override is None,
                i <= n,
                n == self.rules@.len(),
                spec_first_match(self.rules@, 0, task_name@) == spec_first_match(
                    self.rules@,
                    i as int,
                    task_name@,
                ),
            decreases n - i,
        {
            if glob_match(self.rules[i].pattern.as_str(), task_name.as_str()) {
                return Ok(self.rules[i].queue.clone());
            }
            i = i + 1;
        }
        match &self.default_queue {
            Some(d) => Ok(d.clone()),
            None => Err(CeleryError::new(ErrorKind::UnknownQueueError(task_name.clone()))),
        }
    }
}

} // verus!
