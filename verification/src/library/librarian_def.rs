//! Librarian definitions: validation and topic matching.
//!
//! Topics are `/`-separated paths. A librarian's topic patterns match them
//! segment by segment: `*` matches any one segment, `**` zero or more.
//! The thresholds of a definition are floating-point numbers; their
//! positivity is decided where they are read and handed over as flags.

use vstd::prelude::*;
use crate::prompts::provider::{regex_is_match, source_is_match};
use crate::text::{chars_of, push_char, str_eq, views_of};

verus! {

/// Permissions a librarian has over its managed content.
#[derive(Debug, Clone, Copy, PartialEq, Eq, Structural)]
pub struct LibrarianPermissions {
    pub add: bool,
    pub delete: bool,
    pub reorganize: bool,
}

/// Optional ACP connection configuration for a librarian.
#[derive(Debug, Clone)]
pub struct LibrarianAcp {
    pub command: String,
    pub args: Option<Vec<String>>,
    pub agent_id: Option<String>,
}

/// The parts of a librarian definition that validation and routing read.
/// `thresholds_positive` records, for the topic-complexity and escalate-at
/// thresholds, whether each is a positive number.
#[derive(Debug, Clone)]
pub struct LibrarianDefinition {
    pub name: String,
    pub description: String,
    pub purpose: String,
    pub topics: Vec<String>,
    pub permissions: LibrarianPermissions,
    pub topic_complexity_positive: bool,
    pub escalate_at_positive: bool,
    pub acp: Option<LibrarianAcp>,
}

/// Result of validating a `LibrarianDefinition`.
#[derive(Debug, Clone)]
pub struct ValidationResult {
    pub valid: bool,
    pub errors: Vec<String>,
}

/// The kebab-case name pattern.
pub const NAME_PATTERN: &'static str = "^[a-z0-9][a-z0-9-]*$";

/// The default librarian: manages every topic with every permission.
pub fn default_definition() -> (r: LibrarianDefinition)
    ensures
        r.name@ == "default"@,
        r.description@ == "General-purpose head librarian that manages all topics."@,
        r.purpose@ == "General-purpose head librarian for routing, arbitration, and fallback."@,
        views_of(r.topics@) == seq!["**"@],
        r.permissions == (LibrarianPermissions { add: true, delete: true, reorganize: true }),
        r.topic_complexity_positive,
        r.escalate_at_positive,
        r.acp is None,
{
    let mut topics: Vec<String> = Vec::new();
    topics.push("**".to_owned());
    assert(views_of(topics@) =~= seq!["**"@]);
    LibrarianDefinition {
        name: "default".to_owned(),
        description: "General-purpose head librarian that manages all topics.".to_owned(),
        purpose: "General-purpose head librarian for routing, arbitration, and fallback.".to_owned(),
        topics,
        permissions: LibrarianPermissions { add: true, delete: true, reorganize: true },
        topic_complexity_positive: true,
        escalate_at_positive: true,
        acp: None,
    }
}

/// `errors` with `message` appended when `failed`.
pub open spec fn check(errors: Seq<Seq<char>>, failed: bool, message: Seq<char>) -> Seq<Seq<char>> {
    if failed { errors.push(message) } else { errors }
}

/// The errors of the name check.
pub open spec fn name_errors(name: Seq<char>) -> Seq<Seq<char>> {
    if name.len() == 0 {
        seq!["name must be a non-empty string"@]
    } else if !regex_is_match(NAME_PATTERN@, name) {
        seq!["name must be kebab-case (lowercase alphanumeric and hyphens, starting with alphanumeric)"@]
    } else {
        Seq::empty()
    }
}

/// The validation errors of a definition, in the order they are checked.
pub open spec fn definition_errors(d: LibrarianDefinition) -> Seq<Seq<char>> {
    let e1 = check(name_errors(d.name@), d.description@.len() == 0, "description must be a non-empty string"@);
    let e2 = check(e1, d.purpose@.len() == 0, "purpose must be a non-empty string"@);
    let e3 = check(e2, d.topics@.len() == 0, "topics must be a non-empty array of strings"@);
    let e4 = check(e3, !d.topic_complexity_positive, "thresholds.topicComplexity must be a positive number"@);
    let e5 = check(e4, !d.escalate_at_positive, "thresholds.escalateAt must be a positive number"@);
    check(e5, d.acp matches Some(a) && a.command@.len() == 0, "acp.command must be a non-empty string"@)
}

/// `errors` keeps every error of `before` and holds `message` when `failed`.
proof fn lemma_check_keeps(before: Seq<Seq<char>>, failed: bool, message: Seq<char>)
    ensures
        forall|x: Seq<char>| before.contains(x) ==> #[trigger] check(before, failed, message).contains(x),
        failed ==> check(before, failed, message).contains(message),
        !failed ==> check(before, failed, message) == before,
{
    if failed {
        assert(check(before, failed, message)[before.len() as int] == message);
        assert forall|x: Seq<char>| before.contains(x) implies #[trigger] check(before, failed, message).contains(x) by {
            let k = choose|k: int| 0 <= k < before.len() && before[k] == x;
            assert(check(before, failed, message)[k] == x);
        }
    }
}

/// Law: each rule a definition breaks is reported with its message, and a
/// definition that breaks none of them (name, description, purpose, topics,
/// both thresholds, ACP command) has no error: a threshold that is not
/// positive, an empty description, purpose, topic list or ACP command makes
/// the definition invalid.
pub proof fn law_broken_rules_are_reported(d: LibrarianDefinition)
    ensures
        d.description@.len() == 0 ==> definition_errors(d).contains("description must be a non-empty string"@),
        d.purpose@.len() == 0 ==> definition_errors(d).contains("purpose must be a non-empty string"@),
        d.topics@.len() == 0 ==> definition_errors(d).contains("topics must be a non-empty array of strings"@),
        !d.topic_complexity_positive ==> definition_errors(d).contains(
            "thresholds.topicComplexity must be a positive number"@),
        !d.escalate_at_positive ==> definition_errors(d).contains("thresholds.escalateAt must be a positive number"@),
        (d.acp matches Some(a) && a.command@.len() == 0) ==> definition_errors(d).contains(
            "acp.command must be a non-empty string"@),
        d.name@.len() == 0 ==> definition_errors(d).contains("name must be a non-empty string"@),
        (d.description@.len() == 0 || d.purpose@.len() == 0 || d.topics@.len() == 0 || !d.topic_complexity_positive
            || !d.escalate_at_positive || d.name@.len() == 0) ==> definition_errors(d).len() > 0,
        (d.name@.len() > 0 && regex_is_match(NAME_PATTERN@, d.name@) && d.description@.len() > 0 && d.purpose@.len() > 0
            && d.topics@.len() > 0 && d.topic_complexity_positive && d.escalate_at_positive && !(d.acp matches Some(a)
            && a.command@.len() == 0)) ==> definition_errors(d).len() == 0,
{
    let e0 = name_errors(d.name@);
    let e1 = check(e0, d.description@.len() == 0, "description must be a non-empty string"@);
    let e2 = check(e1, d.purpose@.len() == 0, "purpose must be a non-empty string"@);
    let e3 = check(e2, d.topics@.len() == 0, "topics must be a non-empty array of strings"@);
    let e4 = check(e3, !d.topic_complexity_positive, "thresholds.topicComplexity must be a positive number"@);
    let e5 = check(e4, !d.escalate_at_positive, "thresholds.escalateAt must be a positive number"@);
    let acp_bad = d.acp matches Some(a) && a.command@.len() == 0;
    lemma_check_keeps(e0, d.description@.len() == 0, "description must be a non-empty string"@);
    lemma_check_keeps(e1, d.purpose@.len() == 0, "purpose must be a non-empty string"@);
    lemma_check_keeps(e2, d.topics@.len() == 0, "topics must be a non-empty array of strings"@);
    lemma_check_keeps(e3, !d.topic_complexity_positive, "thresholds.topicComplexity must be a positive number"@);
    lemma_check_keeps(e4, !d.escalate_at_positive, "thresholds.escalateAt must be a positive number"@);
    lemma_check_keeps(e5, acp_bad, "acp.command must be a non-empty string"@);
    if d.name@.len() == 0 {
        assert(e0[0] == "name must be a non-empty string"@);
        assert(e0.contains("name must be a non-empty string"@));
    }
    assert(definition_errors(d) == check(e5, acp_bad, "acp.command must be a non-empty string"@));
}

fn push_error_if(errors: &mut Vec<String>, failed: bool, message: &str)
    ensures
        views_of(final(errors)@) == check(views_of(old(errors)@), failed, message@),
{
    if failed {
        errors.push(message.to_owned());
        assert(views_of(errors@) =~= views_of(old(errors)@).push(message@));
    }
}

/// Validates a definition: every check that fails contributes its message;
/// the definition is valid when none does.
pub fn validate_definition(input: &LibrarianDefinition) -> (r: ValidationResult)
    ensures
        views_of(r.errors@) == definition_errors(*input),
        r.valid == (definition_errors(*input).len() == 0),
{
    let mut errors: Vec<String> = Vec::new();
    if input.name.as_str().is_empty() {
        errors.push("name must be a non-empty string".to_owned());
    } else if !source_is_match(NAME_PATTERN, input.name.as_str()) {
        errors.push("name must be kebab-case (lowercase alphanumeric and hyphens, starting with alphanumeric)".to_owned());
    }
    assert(views_of(errors@) =~= name_errors(input.name@));
    push_error_if(&mut errors, input.description.as_str().is_empty(), "description must be a non-empty string");
    push_error_if(&mut errors, input.purpose.as_str().is_empty(), "purpose must be a non-empty string");
    push_error_if(&mut errors, input.topics.len() == 0, "topics must be a non-empty array of strings");
    push_error_if(&mut errors, !input.topic_complexity_positive, "thresholds.topicComplexity must be a positive number");
    push_error_if(&mut errors, !input.escalate_at_positive, "thresholds.escalateAt must be a positive number");
    let acp_bad = match &input.acp {
        Some(a) => a.command.as_str().is_empty(),
        None => false,
    };
    push_error_if(&mut errors, acp_bad, "acp.command must be a non-empty string");
    let valid = errors.len() == 0;
    ValidationResult { valid, errors }
}

// ---------------------------------------------------------------------------
// Topic matching
// ---------------------------------------------------------------------------

/// The `/`-separated segments of a text (`str::split('/')`): the empty text
/// has one empty segment.
pub open spec fn split_segments(s: Seq<char>) -> Seq<Seq<char>>
    decreases s.len(),
{
    if s.len() == 0 {
        seq![Seq::<char>::empty()]
    } else {
        let prev = split_segments(s.drop_last());
        if s.last() == '/' {
            prev.push(Seq::empty())
        } else {
            prev.update(prev.len() - 1, prev.last().push(s.last()))
        }
    }
}

proof fn lemma_split_nonempty(s: Seq<char>)
    ensures
        split_segments(s).len() >= 1,
    decreases s.len(),
{
    if s.len() > 0 {
        lemma_split_nonempty(s.drop_last());
    }
}

/// Splits a text into its `/`-separated segments.
pub fn split_topic(s: &str) -> (r: Vec<String>)
    ensures
        views_of(r@) == split_segments(s@),
{
    let cs = chars_of(s);
    let mut segs: Vec<String> = Vec::new();
    let mut cur = String::new();
    let mut i: usize = 0;
    while i < cs.len()
        invariant
            i <= cs@.len(),
            cs@ == s@,
            views_of(segs@).push(cur@) == split_segments(cs@.take(i as int)),
        decreases cs@.len() - i,
    {
        let c = cs[i];
        let ghost before = views_of(segs@).push(cur@);
        proof {
            assert(cs@.take(i + 1).drop_last() =~= cs@.take(i as int));
            assert(cs@.take(i + 1).last() == c);
        }
        if c == '/' {
            let done = cur;
            segs.push(done);
            cur = String::new();
            assert(views_of(segs@).push(cur@) =~= before.push(Seq::empty()));
        } else {
            push_char(&mut cur, c);
            proof {
                lemma_split_nonempty(cs@.take(i as int));
            }
            assert(views_of(segs@).push(cur@) =~= before.update(before.len() - 1, before.last().push(c)));
        }
        i = i + 1;
    }
    assert(cs@.take(cs@.len() as int) =~= cs@);
    segs.push(cur);
    segs
}

/// Whether topic segments match pattern segments: `**` matches zero or
/// more segments, `*` any one segment, anything else itself.
pub open spec fn seg_match(p: Seq<Seq<char>>, t: Seq<Seq<char>>) -> bool
    decreases p.len(), 0nat, 0nat,
{
    if p.len() == 0 {
        t.len() == 0
    } else if p[0] == "**"@ {
        p.len() == 1 || suffix_match(p.drop_first(), t, 0)
    } else if t.len() == 0 {
        false
    } else if p[0] == "*"@ || p[0] == t[0] {
        seg_match(p.drop_first(), t.drop_first())
    } else {
        false
    }
}

/// Whether the pattern segments match the topic segments from some
/// position at or after `i` on.
pub open spec fn suffix_match(p: Seq<Seq<char>>, t: Seq<Seq<char>>, i: nat) -> bool
    decreases p.len(), 1nat, t.len() - i,
{
    seg_match(p, t.skip(i as int)) || (i < t.len() && suffix_match(p, t, i + 1))
}

/// Whether the topic segments from `ti` on match the pattern segments from
/// `pi` on.
fn match_from(p: &Vec<String>, pi: usize, t: &Vec<String>, ti: usize) -> (r: bool)
    requires
        pi <= p@.len(),
        ti <= t@.len(),
    ensures
        r == seg_match(views_of(p@).skip(pi as int), views_of(t@).skip(ti as int)),
    decreases p@.len() - pi, t@.len() - ti,
{
    let ghost ps = views_of(p@).skip(pi as int);
    let ghost ts = views_of(t@).skip(ti as int);
    if pi == p.len() {
        return ti == t.len();
    }
    assert(ps[0] == p@[pi as int]@);
    assert(ps.drop_first() =~= views_of(p@).skip(pi + 1));
    if str_eq(p[pi].as_str(), "**") {
        if pi + 1 == p.len() {
            return true;
        }
        let next_pi = pi + 1;
        let ghost qs = ps.drop_first();
        let mut i: usize = ti;
        loop
            invariant
                next_pi == pi + 1,
                pi + 1 < p@.len(),
                ti <= i <= t@.len(),
                ps == views_of(p@).skip(pi as int),
                ps.len() >= 2,
                ps[0] == "**"@,
                ts == views_of(t@).skip(ti as int),
                qs == ps.drop_first(),
                qs == views_of(p@).skip(pi + 1),
                suffix_match(qs, ts, 0) == suffix_match(qs, ts, (i - ti) as nat),
            decreases t@.len() - i,
        {
            let m = match_from(p, next_pi, t, i);
            assert(ts.skip(i - ti) =~= views_of(t@).skip(i as int));
            if m {
                return true;
            }
            if i == t.len() {
                return false;
            }
            i = i + 1;
        }
    }
    if ti == t.len() {
        return false;
    }
    assert(ts[0] == t@[ti as int]@);
    assert(ts.drop_first() =~= views_of(t@).skip(ti + 1));
    if str_eq(p[pi].as_str(), "*") || str_eq(p[pi].as_str(), t[ti].as_str()) {
        match_from(p, pi + 1, t, ti + 1)
    } else {
        false
    }
}

/// Whether a topic matches a pattern.
pub open spec fn topic_matches(pattern: Seq<char>, topic: Seq<char>) -> bool {
    seg_match(split_segments(pattern), split_segments(topic))
}

/// Whether a topic matches any of the patterns.
pub fn matches_topic(patterns: &[String], topic: &str) -> (r: bool)
    ensures
        r == exists|k: int| 0 <= k < patterns@.len() && #[trigger] topic_matches(patterns@[k]@, topic@),
{
    let t = split_topic(topic);
    let mut k: usize = 0;
    while k < patterns.len()
        invariant
            k <= patterns@.len(),
            views_of(t@) == split_segments(topic@),
            forall|j: int| 0 <= j < k ==> !#[trigger] topic_matches(patterns@[j]@, topic@),
        decreases patterns@.len() - k,
    {
        let p = split_topic(patterns[k].as_str());
        assert(views_of(p@).skip(0) =~= views_of(p@));
        assert(views_of(t@).skip(0) =~= views_of(t@));
        if match_from(&p, 0, &t, 0) {
            assert(topic_matches(patterns@[k as int]@, topic@));
            return true;
        }
        k = k + 1;
    }
    false
}

/// Law: the pattern `**` matches every topic.
pub proof fn law_double_star_matches_every_topic(topic: Seq<char>)
    ensures
        topic_matches("**"@, topic),
{
    reveal_strlit("**");
    let s: Seq<char> = "**"@;
    assert(s =~= seq!['*', '*']);
    let s1 = s.drop_last();
    assert(s1 =~= seq!['*']);
    assert(s1.drop_last() =~= Seq::<char>::empty());
    let e = split_segments(s1.drop_last());
    assert(e =~= seq![Seq::<char>::empty()]);
    assert(s1.last() == '*');
    let a = split_segments(s1);
    assert(a == e.update(e.len() - 1, e.last().push('*')));
    assert(a =~= seq![seq!['*']]);
    assert(s.last() == '*');
    let b = split_segments(s);
    assert(b == a.update(a.len() - 1, a.last().push('*')));
    assert(a.last().push('*') =~= seq!['*', '*']);
    assert(b =~~= seq![seq!['*', '*']]);
    assert(split_segments(s)[0] =~= "**"@);
}

} // verus!
