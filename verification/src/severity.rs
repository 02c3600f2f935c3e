//! Severity classes and the tag rules that assign them.
//!
//! A rule pairs a tag with a severity. A line gets the severity of the first
//! rule, in the order of the rule list, whose tag lies somewhere in the line;
//! the position of the tag inside the line plays no part.

use crate::chars::{contains_chars, occurs_in, to_chars};
use vstd::prelude::*;

verus! {

/// How a line is to be displayed.
#[derive(Clone, Copy, Debug, PartialEq, Eq, Structural)]
pub enum Severity {
    /// Shown in the theme's error colour.
    Error,
    /// Shown in the theme's warning colour.
    Warn,
    /// Shown in the theme's weak text colour.
    Debug,
    /// Shown in the theme's ordinary text colour.
    Default,
}

/// A tag and the severity of the lines that hold it.
pub struct Rule {
    tag: Vec<char>,
    severity: Severity,
}

/// What a [`Rule`] stands for in contracts.
pub struct RuleView {
    pub tag: Seq<char>,
    pub severity: Severity,
}

impl View for Rule {
    type V = RuleView;

    closed spec fn view(&self) -> RuleView {
        RuleView { tag: self.tag@, severity: self.severity }
    }
}

impl DeepView for Rule {
    type V = RuleView;

    open spec fn deep_view(&self) -> RuleView {
        self@
    }
}

impl Rule {
    /// A rule that gives `severity` to every line in which `tag` occurs,
    /// compared case-sensitively.
    pub fn new(tag: &str, severity: Severity) -> (rule: Rule)
        ensures
            rule@ == (RuleView { tag: tag@, severity }),
    {
        Rule { tag: to_chars(tag), severity }
    }

    /// The severity that this rule assigns.
    pub fn severity(&self) -> (severity: Severity)
        ensures
            severity == self@.severity,
    {
        self.severity
    }

    /// Whether this rule's tag occurs in `line`.
    pub fn applies_to(&self, line: &[char]) -> (hit: bool)
        ensures
            hit == occurs_in(line@, self@.tag),
    {
        contains_chars(line, self.tag.as_slice())
    }
}

/// The severity of `line` under `rules`: that of the first rule whose tag
/// occurs in the line, and `Default` where no tag does.
pub open spec fn classify(rules: Seq<RuleView>, line: Seq<char>) -> Severity
    decreases rules.len(),
{
    if rules.len() == 0 {
        Severity::Default
    } else if occurs_in(line, rules[0].tag) {
        rules[0].severity
    } else {
        classify(rules.drop_first(), line)
    }
}

/// The rules in use where none are given: `[ERROR]` before `[WARN]` before
/// `[DEBUG]`.
pub open spec fn default_rules() -> Seq<RuleView> {
    seq![
        RuleView { tag: "[ERROR]"@, severity: Severity::Error },
        RuleView { tag: "[WARN]"@, severity: Severity::Warn },
        RuleView { tag: "[DEBUG]"@, severity: Severity::Debug },
    ]
}

/// The rule list of [`default_rules`].
pub fn standard_rules() -> (rules: Vec<Rule>)
    ensures
        rules.deep_view() == default_rules(),
{
    let mut rules: Vec<Rule> = Vec::new();
    rules.push(Rule::new("[ERROR]", Severity::Error));
    rules.push(Rule::new("[WARN]", Severity::Warn));
    rules.push(Rule::new("[DEBUG]", Severity::Debug));
    rules
}

/// The severity of `line` under `rules`.
pub fn classify_line(rules: &Vec<Rule>, line: &[char]) -> (severity: Severity)
    ensures
        severity == classify(rules.deep_view(), line@),
{
    let ghost all = rules.deep_view();
    assert(all.skip(0) =~= all);
    let mut i: usize = 0;
    while i < rules.len()
        invariant
            i <= rules.len(),
            all == rules.deep_view(),
            classify(all, line@) == classify(all.skip(i as int), line@),
        decreases rules.len() - i,
    {
        assert(all.skip(i as int).drop_first() =~= all.skip(i + 1));
        if rules[i].applies_to(line) {
            return rules[i].severity();
        }
        i += 1;
    }
    Severity::Default
}

/// The first rule whose tag occurs decides, whatever later rules hold and
/// wherever in the line their tags stand.
pub proof fn first_match_decides(rules: Seq<RuleView>, line: Seq<char>, i: int)
    requires
        0 <= i < rules.len(),
        occurs_in(line, rules[i].tag),
        forall|j: int| 0 <= j < i ==> !occurs_in(line, #[trigger] rules[j].tag),
    ensures
        classify(rules, line) == rules[i].severity,
    decreases i,
{
    if i > 0 {
        let rest = rules.drop_first();
        first_match_decides(rest, line, i - 1);
    }
}

/// A line in which no tag occurs is `Default`.
pub proof fn no_match_is_default(rules: Seq<RuleView>, line: Seq<char>)
    requires
        forall|j: int| 0 <= j < rules.len() ==> !occurs_in(line, #[trigger] rules[j].tag),
    ensures
        classify(rules, line) == Severity::Default,
    decreases rules.len(),
{
    if rules.len() > 0 {
        let rest = rules.drop_first();
        no_match_is_default(rest, line);
    }
}

/// Under the default rules a line that holds `[ERROR]` is an error line, also
/// where it holds `[WARN]` or `[DEBUG]` as well, before or after.
pub proof fn error_tag_wins(line: Seq<char>)
    requires
        occurs_in(line, "[ERROR]"@),
    ensures
        classify(default_rules(), line) == Severity::Error,
{
}

/// Under the default rules the tags are tried in the order `[ERROR]`,
/// `[WARN]`, `[DEBUG]`.
pub proof fn default_rules_in_order(line: Seq<char>)
    ensures
        classify(default_rules(), line) == if occurs_in(line, "[ERROR]"@) {
            Severity::Error
        } else if occurs_in(line, "[WARN]"@) {
            Severity::Warn
        } else if occurs_in(line, "[DEBUG]"@) {
            Severity::Debug
        } else {
            Severity::Default
        },
{
    reveal_with_fuel(classify, 4);
}

} // verus!
