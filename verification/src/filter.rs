//! Ordered include/exclude rules, and their line form on the wire.
//!
//! A rule set is read top to bottom and the first rule whose pattern matches
//! a path decides it; a path that no rule matches is included. A pattern
//! without a `/` is matched against the last component of the path, one with
//! a `/` against the whole relative path. In a pattern, `**` matches any run
//! of characters, `*` any run that holds no `/`, and `?` one character other
//! than `/`; every other character matches itself.

use vstd::prelude::*;
use crate::text::{chars_of, push_str, string_bytes, utf8_string};

verus! {

/// What a matching rule does with a path.
#[derive(Debug, Clone, Copy, PartialEq, Eq, Structural)]
pub enum Action {
    Include,
    Exclude,
}

/// Where a rule came from.
#[derive(Debug, Clone, Copy, PartialEq, Eq, Structural)]
pub enum Origin {
    /// `--include` / `--exclude` on the command line.
    CommandLine,
    /// A rules file named on the command line.
    File,
    /// Rules received from the other end of a session.
    Peer,
}

/// Why a rule or a rule set could not be built.
#[derive(Debug, Clone, Copy, PartialEq, Eq, Structural)]
pub enum FilterError {
    /// A pattern was empty.
    EmptyPattern,
    /// A wire line did not start with `+ ` or `- `.
    MissingSigil,
    /// A wire line's pattern was not UTF-8.
    NotUtf8,
}

impl FilterError {
    pub open spec fn spec_text(self) -> Seq<char> {
        match self {
            FilterError::EmptyPattern => "empty pattern"@,
            FilterError::MissingSigil => "rule does not start with '+ ' or '- '"@,
            FilterError::NotUtf8 => "pattern is not valid UTF-8"@,
        }
    }

    /// The message shown for this error.
    pub fn to_string(&self) -> (r: String)
        ensures
            r@ == self.spec_text(),
    {
        let mut s = String::new();
        match self {
            FilterError::EmptyPattern => push_str(&mut s, "empty pattern"),
            FilterError::MissingSigil => push_str(&mut s, "rule does not start with '+ ' or '- '"),
            FilterError::NotUtf8 => push_str(&mut s, "pattern is not valid UTF-8"),
        }
        s
    }
}

/// One include or exclude rule.
#[derive(Debug)]
pub struct Rule {
    pub action: Action,
    pub pattern: String,
    pub origin: Origin,
}

/// The meaning of a rule: its action, pattern and origin.
pub type RuleView = (Action, Seq<char>, Origin);

impl View for Rule {
    type V = RuleView;

    open spec fn view(&self) -> RuleView {
        (self.action, self.pattern@, self.origin)
    }
}

impl Clone for Rule {
    fn clone(&self) -> (r: Self)
        ensures
            r@ == self@,
    {
        Rule { action: self.action, pattern: self.pattern.clone(), origin: self.origin }
    }
}

impl Rule {
    /// Builds a rule; an empty pattern is refused.
    pub fn new(action: Action, pattern: &str, origin: Origin) -> (r: Result<Rule, FilterError>)
        ensures
            pattern@.len() == 0 <==> r is Err,
            r is Err ==> r->Err_0 == FilterError::EmptyPattern,
            r is Ok ==> r->Ok_0@ == (action, pattern@, origin),
    {
        if pattern.is_empty() {
            Err(FilterError::EmptyPattern)
        } else {
            Ok(Rule { action, pattern: pattern.to_owned(), origin })
        }
    }
}

proof fn lemma_encode_empty(s: Seq<char>)
    ensures
        (vstd::utf8::encode_utf8(s).len() == 0) <==> (s.len() == 0),
{
    if s.len() > 0 {
        assert(vstd::utf8::encode_utf8(s) == vstd::utf8::encode_scalar(s[0] as u32)
            + vstd::utf8::encode_utf8(s.drop_first()));
    } else {
        assert(vstd::utf8::encode_utf8(s) =~= Seq::<u8>::empty());
    }
}

/// The outcome of filtering one path.
#[derive(Debug, Clone, Copy, PartialEq, Eq, Structural)]
pub enum Decision {
    Included,
    Excluded,
}

impl Decision {
    /// Whether the path takes part in the transfer.
    pub fn is_included(&self) -> (r: bool)
        ensures
            r <==> *self == Decision::Included,
    {
        match self {
            Decision::Included => true,
            Decision::Excluded => false,
        }
    }
}

/// Whether a glob pattern matches the whole of a text.
pub open spec fn glob(p: Seq<char>, t: Seq<char>) -> bool
    decreases p.len() + t.len(),
{
    if p.len() == 0 {
        t.len() == 0
    } else if p.len() >= 2 && p[0] == '*' && p[1] == '*' {
        glob(p.skip(2), t) || (t.len() > 0 && glob(p, t.skip(1)))
    } else if p[0] == '*' {
        glob(p.skip(1), t) || (t.len() > 0 && t[0] != '/' && glob(p, t.skip(1)))
    } else if p[0] == '?' {
        t.len() > 0 && t[0] != '/' && glob(p.skip(1), t.skip(1))
    } else {
        t.len() > 0 && t[0] == p[0] && glob(p.skip(1), t.skip(1))
    }
}

/// The position just past the last `/` of a text, 0 when it holds none.
pub open spec fn after_last_slash(s: Seq<char>) -> int
    decreases s.len(),
{
    if s.len() == 0 {
        0
    } else if s.last() == '/' {
        s.len() as int
    } else {
        after_last_slash(s.drop_last())
    }
}

/// The part of a path that a rule pattern is matched against.
pub open spec fn match_target(pattern: Seq<char>, path: Seq<char>) -> Seq<char> {
    if pattern.contains('/') {
        path
    } else {
        path.skip(after_last_slash(path))
    }
}

/// Whether a rule's pattern matches a path.
pub open spec fn rule_matches(pattern: Seq<char>, path: Seq<char>) -> bool {
    glob(pattern, match_target(pattern, path))
}

/// The first-match decision of an ordered rule list.
pub open spec fn decide_rules(rules: Seq<RuleView>, path: Seq<char>) -> Decision
    decreases rules.len(),
{
    if rules.len() == 0 {
        Decision::Included
    } else if rule_matches(rules[0].1, path) {
        match rules[0].0 {
            Action::Include => Decision::Included,
            Action::Exclude => Decision::Excluded,
        }
    } else {
        decide_rules(rules.drop_first(), path)
    }
}

proof fn lemma_skip_skip<A>(s: Seq<A>, i: int, k: int)
    requires
        0 <= i,
        0 <= k,
        i + k <= s.len(),
    ensures
        s.skip(i).skip(k) == s.skip(i + k),
{
    assert(s.skip(i).skip(k) =~= s.skip(i + k));
}

fn glob_from(p: &Vec<char>, i: usize, t: &Vec<char>, j: usize) -> (r: bool)
    requires
        i <= p.len(),
        j <= t.len(),
    ensures
        r == glob(p@.skip(i as int), t@.skip(j as int)),
    decreases (p.len() - i) + (t.len() - j),
{
    let ghost ps = p@.skip(i as int);
    let ghost ts = t@.skip(j as int);
    if i == p.len() {
        return j == t.len();
    }
    proof {
        lemma_skip_skip(p@, i as int, 1);
        if j < t.len() {
            lemma_skip_skip(t@, j as int, 1);
        }
    }
    if i + 1 < p.len() && p[i] == '*' && p[i + 1] == '*' {
        proof {
            lemma_skip_skip(p@, i as int, 2);
        }
        if glob_from(p, i + 2, t, j) {
            return true;
        }
        if j == t.len() {
            return false;
        }
        glob_from(p, i, t, j + 1)
    } else if p[i] == '*' {
        if glob_from(p, i + 1, t, j) {
            return true;
        }
        if j == t.len() || t[j] == '/' {
            return false;
        }
        glob_from(p, i, t, j + 1)
    } else if p[i] == '?' {
        if j == t.len() || t[j] == '/' {
            return false;
        }
        glob_from(p, i + 1, t, j + 1)
    } else {
        if j == t.len() || t[j] != p[i] {
            return false;
        }
        glob_from(p, i + 1, t, j + 1)
    }
}

pub(crate) fn last_component_start(s: &Vec<char>) -> (r: usize)
    ensures
        r == after_last_slash(s@),
        r <= s.len(),
{
    let mut i = s.len();
    assert(s@.take(i as int) =~= s@);
    while i > 0 && s[i - 1] != '/'
        invariant
            i <= s.len(),
            after_last_slash(s@.take(i as int)) == after_last_slash(s@),
        decreases i,
    {
        assert(s@.take(i as int).drop_last() =~= s@.take(i as int - 1));
        i = i - 1;
    }
    i
}

fn contains_slash(p: &Vec<char>) -> (r: bool)
    ensures
        r == p@.contains('/'),
{
    let mut k: usize = 0;
    while k < p.len()
        invariant
            k <= p.len(),
            forall|m: int| 0 <= m < k ==> p@[m] != '/',
        decreases p.len() - k,
    {
        if p[k] == '/' {
            return true;
        }
        k = k + 1;
    }
    false
}

fn rule_matches_path(pattern: &str, path: &Vec<char>) -> (r: bool)
    ensures
        r == rule_matches(pattern@, path@),
{
    let p = chars_of(pattern);
    proof {
        assert(p@.skip(0) =~= p@);
    }
    if contains_slash(&p) {
        proof {
            assert(path@.skip(0) =~= path@);
        }
        glob_from(&p, 0, path, 0)
    } else {
        let start = last_component_start(path);
        glob_from(&p, 0, path, start)
    }
}

/// An ordered list of rules.
#[derive(Debug)]
pub struct FilterSet {
    pub rules: Vec<Rule>,
}

impl View for FilterSet {
    type V = Seq<RuleView>;

    open spec fn view(&self) -> Seq<RuleView> {
        self.rules@.map_values(|r: Rule| r@)
    }
}

impl Clone for FilterSet {
    fn clone(&self) -> (r: Self)
        ensures
            r@ == self@,
    {
        let mut rules: Vec<Rule> = Vec::new();
        for k in 0..self.rules.len()
            invariant
                rules@.len() == k,
                forall|m: int| 0 <= m < k ==> #[trigger] rules@[m]@ == self.rules@[m]@,
        {
            rules.push(self.rules[k].clone());
        }
        let r = FilterSet { rules };
        assert(r@ =~= self@);
        r
    }
}

impl FilterSet {
    /// A rule set applying the given rules in order.
    pub fn from_rules(rules: Vec<Rule>) -> (r: FilterSet)
        ensures
            r.rules@ == rules@,
            r@ == rules@.map_values(|x: Rule| x@),
    {
        FilterSet { rules }
    }

    /// Whether any rule includes rather than excludes.
    pub fn has_includes(&self) -> (r: bool)
        ensures
            r <==> exists|k: int| 0 <= k < self@.len() && (#[trigger] self@[k]).0 == Action::Include,
    {
        let mut k: usize = 0;
        while k < self.rules.len()
            invariant
                k <= self.rules.len(),
                forall|m: int| 0 <= m < k ==> (#[trigger] self@[m]).0 != Action::Include,
            decreases self.rules.len() - k,
        {
            if self.rules[k].action == Action::Include {
                assert(self@[k as int].0 == Action::Include);
                return true;
            }
            k = k + 1;
        }
        false
    }

    /// Decides a relative path: the first matching rule's action, or included
    /// when no rule matches.
    pub fn decide(&self, path: &str) -> (r: Decision)
        ensures
            r == decide_rules(self@, path@),
    {
        let chars = chars_of(path);
        let mut k = self.rules.len();
        let mut result = Decision::Included;
        assert(self@.skip(k as int) =~= Seq::<RuleView>::empty());
        while k > 0
            invariant
                k <= self.rules.len(),
                chars@ == path@,
                result == decide_rules(self@.skip(k as int), path@),
            decreases k,
        {
            k = k - 1;
            let rule = &self.rules[k];
            assert(self@.skip(k as int).drop_first() =~= self@.skip(k as int + 1));
            assert(self@.skip(k as int)[0] == rule@);
            if rule_matches_path(rule.pattern.as_str(), &chars) {
                result = match rule.action {
                    Action::Include => Decision::Included,
                    Action::Exclude => Decision::Excluded,
                };
            }
        }
        assert(self@.skip(0) =~= self@);
        result
    }
}

/// A rule set that excludes each of the given patterns.
pub fn from_exclude_patterns(patterns: &[String]) -> (r: Result<FilterSet, FilterError>)
    ensures
        (exists|k: int| 0 <= k < patterns@.len() && (#[trigger] patterns@[k])@.len() == 0)
            <==> r is Err,
        r is Err ==> r->Err_0 == FilterError::EmptyPattern,
        r is Ok ==> r->Ok_0@.len() == patterns@.len() && forall|k: int|
            0 <= k < patterns@.len() ==> #[trigger] r->Ok_0@[k] == (
                Action::Exclude,
                patterns@[k]@,
                Origin::CommandLine,
            ),
{
    let mut rules: Vec<Rule> = Vec::new();
    for k in 0..patterns.len()
        invariant
            rules@.len() == k,
            forall|m: int| 0 <= m < k ==> (#[trigger] patterns@[m])@.len() != 0,
            forall|m: int| 0 <= m < k ==> #[trigger] rules@[m]@ == (
                Action::Exclude,
                patterns@[m]@,
                Origin::CommandLine,
            ),
    {
        match Rule::new(Action::Exclude, patterns[k].as_str(), Origin::CommandLine) {
            Ok(rule) => rules.push(rule),
            Err(e) => {
                return Err(e);
            },
        }
    }
    let r = FilterSet::from_rules(rules);
    Ok(r)
}

/// The wire line of one rule: its sigil, a space, and the pattern's UTF-8.
pub open spec fn encode_rule(rule: RuleView) -> Seq<u8> {
    seq![if rule.0 == Action::Include { 43u8 } else { 45u8 }, 32u8] + vstd::utf8::encode_utf8(
        rule.1,
    )
}

/// The rule a wire line stands for, if it is well formed.
pub open spec fn decode_rule(line: Seq<u8>) -> Option<(Action, Seq<char>)> {
    if line.len() < 3 || line[1] != 32u8 || (line[0] != 43u8 && line[0] != 45u8) {
        None
    } else if !vstd::utf8::valid_utf8(line.skip(2)) {
        None
    } else {
        Some(
            (
                if line[0] == 43u8 { Action::Include } else { Action::Exclude },
                vstd::utf8::decode_utf8(line.skip(2)),
            ),
        )
    }
}

/// The error a malformed wire line is reported with.
pub open spec fn decode_rule_error(line: Seq<u8>) -> FilterError {
    if line.len() < 3 || line[1] != 32u8 || (line[0] != 43u8 && line[0] != 45u8) {
        FilterError::MissingSigil
    } else {
        FilterError::NotUtf8
    }
}

/// Encodes a rule set as one wire line per rule, in order.
pub fn encode(filter: &FilterSet) -> (r: Vec<Vec<u8>>)
    ensures
        r@.len() == filter@.len(),
        forall|k: int| 0 <= k < filter@.len() ==> #[trigger] r@[k]@ == encode_rule(filter@[k]),
{
    let mut out: Vec<Vec<u8>> = Vec::new();
    for k in 0..filter.rules.len()
        invariant
            out@.len() == k,
            forall|m: int| 0 <= m < k ==> #[trigger] out@[m]@ == encode_rule(filter@[m]),
    {
        let rule = &filter.rules[k];
        let mut line: Vec<u8> = Vec::new();
        line.push(if rule.action == Action::Include { 43u8 } else { 45u8 });
        line.push(32u8);
        let mut bytes = string_bytes(rule.pattern.as_str());
        line.append(&mut bytes);
        assert(line@ =~= encode_rule(filter@[k as int]));
        out.push(line);
    }
    out
}

/// Decodes one wire line into a rule received from a peer.
pub fn decode_line(line: &[u8]) -> (r: Result<Rule, FilterError>)
    ensures
        r is Ok <==> decode_rule(line@) is Some,
        r is Ok ==> r->Ok_0@ == (
            decode_rule(line@)->Some_0.0,
            decode_rule(line@)->Some_0.1,
            Origin::Peer,
        ),
        r is Err ==> r->Err_0 == decode_rule_error(line@),
{
    if line.len() < 3 || line[1] != 32u8 || (line[0] != 43u8 && line[0] != 45u8) {
        return Err(FilterError::MissingSigil);
    }
    let action = if line[0] == 43u8 { Action::Include } else { Action::Exclude };
    let mut rest: Vec<u8> = Vec::new();
    let mut k: usize = 2;
    while k < line.len()
        invariant
            2 <= k <= line.len(),
            rest@ == line@.subrange(2, k as int),
        decreases line.len() - k,
    {
        rest.push(line[k]);
        k = k + 1;
    }
    assert(rest@ =~= line@.skip(2));
    match utf8_string(rest.as_slice()) {
        Some(text) => Ok(Rule { action, pattern: text, origin: Origin::Peer }),
        None => Err(FilterError::NotUtf8),
    }
}

/// The rule set a list of wire lines stands for, if every line is well formed.
pub open spec fn decode_all(lines: Seq<Seq<u8>>) -> Option<Seq<RuleView>> {
    if forall|k: int| 0 <= k < lines.len() ==> (#[trigger] decode_rule(lines[k])) is Some {
        Some(
            Seq::new(
                lines.len(),
                |k: int|
                    (decode_rule(lines[k])->Some_0.0, decode_rule(lines[k])->Some_0.1, Origin::Peer),
            ),
        )
    } else {
        None
    }
}

/// Decodes wire lines into the rule set they stand for, refusing the whole
/// set on the first malformed line.
pub fn decode(lines: &[Vec<u8>]) -> (r: Result<FilterSet, FilterError>)
    ensures
        r is Ok <==> decode_all(lines@.map_values(|l: Vec<u8>| l@)) is Some,
        r is Ok ==> r->Ok_0@ == decode_all(lines@.map_values(|l: Vec<u8>| l@))->Some_0,
        r is Err ==> exists|k: int|
            0 <= k < lines@.len() && decode_rule((#[trigger] lines@[k])@) is None
                && r->Err_0 == decode_rule_error(lines@[k]@),
{
    let ghost views = lines@.map_values(|l: Vec<u8>| l@);
    let mut rules: Vec<Rule> = Vec::new();
    for k in 0..lines.len()
        invariant
            views == lines@.map_values(|l: Vec<u8>| l@),
            rules@.len() == k,
            forall|m: int| 0 <= m < k ==> (#[trigger] decode_rule(views[m])) is Some,
            forall|m: int| 0 <= m < k ==> #[trigger] rules@[m]@ == (
                decode_rule(views[m])->Some_0.0,
                decode_rule(views[m])->Some_0.1,
                Origin::Peer,
            ),
    {
        match decode_line(lines[k].as_slice()) {
            Ok(rule) => {
                assert(views[k as int] == lines@[k as int]@);
                rules.push(rule);
            },
            Err(e) => {
                assert(views[k as int] == lines@[k as int]@);
                assert(decode_rule(views[k as int]) is None);
                return Err(e);
            },
        }
    }
    let r = FilterSet { rules };
    assert(r@ =~= decode_all(views)->Some_0);
    Ok(r)
}

/// Encoding a rule set and decoding the lines gives back every rule, in
/// order, with its action and pattern; the decoded rules are marked as coming
/// from the peer.
pub proof fn lemma_decode_encode(rules: Seq<RuleView>)
    requires
        forall|k: int| 0 <= k < rules.len() ==> (#[trigger] rules[k]).1.len() > 0,
    ensures
        decode_all(rules.map_values(|r: RuleView| encode_rule(r))) == Some(
            rules.map_values(|r: RuleView| (r.0, r.1, Origin::Peer)),
        ),
{
    let lines = rules.map_values(|r: RuleView| encode_rule(r));
    assert forall|k: int| 0 <= k < lines.len() implies (#[trigger] decode_rule(lines[k]))
        == Some((rules[k].0, rules[k].1)) by {
        lemma_decode_encode_rule(rules[k]);
    }
    assert(decode_all(lines)->Some_0 =~= rules.map_values(|r: RuleView| (r.0, r.1, Origin::Peer)));
}

/// Decoding the wire line of a rule with a non-empty pattern gives back its
/// action and pattern.
pub proof fn lemma_decode_encode_rule(rule: RuleView)
    requires
        rule.1.len() > 0,
    ensures
        decode_rule(encode_rule(rule)) == Some((rule.0, rule.1)),
{
    let line = encode_rule(rule);
    let body = vstd::utf8::encode_utf8(rule.1);
    lemma_encode_empty(rule.1);
    assert(line.skip(2) =~= body);
    vstd::utf8::encode_utf8_valid_utf8(rule.1);
    vstd::utf8::encode_utf8_decode_utf8(rule.1);
}

/// Where a rule came from never changes what it decides: relabelling every
/// rule's origin leaves every path's decision as it was. With
/// [`lemma_decode_encode`], a rule set that crosses the wire decides every
/// path exactly as it did before.
pub proof fn lemma_decide_ignores_origin(rules: Seq<RuleView>, origin: Origin, path: Seq<char>)
    ensures
        decide_rules(rules.map_values(|r: RuleView| (r.0, r.1, origin)), path) == decide_rules(
            rules,
            path,
        ),
    decreases rules.len(),
{
    let relabelled = rules.map_values(|r: RuleView| (r.0, r.1, origin));
    if rules.len() > 0 {
        assert(relabelled.drop_first() =~= rules.drop_first().map_values(
            |r: RuleView| (r.0, r.1, origin),
        ));
        lemma_decide_ignores_origin(rules.drop_first(), origin, path);
    }
}

/// A rule set sent over the wire decides every path on the receiving side
/// exactly as it does on the sending side: the lines decode, and the decoded
/// rules give each path the decision the sent rules give it.
pub proof fn lemma_decisions_survive_the_wire(rules: Seq<RuleView>, path: Seq<char>)
    requires
        forall|k: int| 0 <= k < rules.len() ==> (#[trigger] rules[k]).1.len() > 0,
    ensures
        decode_all(rules.map_values(|r: RuleView| encode_rule(r))) matches Some(received)
            && decide_rules(received, path) == decide_rules(rules, path),
{
    lemma_decode_encode(rules);
    lemma_decide_ignores_origin(rules, Origin::Peer, path);
}

} // verus!
