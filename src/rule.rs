//! Window rules and the first-match-wins rule matcher.
use vstd::prelude::*;

verus! {

/// Whether a pattern text compiles to a regular expression.
pub uninterp spec fn pattern_is_valid(pattern: Seq<char>) -> bool;

/// Whether the regular expression compiled from `pattern` matches somewhere in `text`.
pub uninterp spec fn pattern_matches(pattern: Seq<char>, text: Seq<char>) -> bool;

/// Relies on `regex::Regex::new`: whether a pattern compiles depends on its
/// text alone, and the empty pattern compiles.
#[verifier::external_body]
fn regex_compiles(pattern: &str) -> (r: bool)
    ensures
        r == pattern_is_valid(pattern@),
        pattern@.len() == 0 ==> r,
{
    regex::Regex::new(pattern).is_ok()
}

/// Relies on `regex::Regex::is_match` on the regex that `regex::Regex::new`
/// builds from `pattern`: the answer depends on the two texts alone, and the
/// empty pattern matches every text. A pattern that does not compile matches
/// nothing.
#[verifier::external_body]
fn regex_is_match(pattern: &str, text: &str) -> (r: bool)
    ensures
        r == (pattern_is_valid(pattern@) && pattern_matches(pattern@, text@)),
        pattern@.len() == 0 ==> r,
{
    match regex::Regex::new(pattern) {
        Ok(re) => re.is_match(text),
        Err(_) => false,
    }
}

/// How windows whose identifying text matches `pattern` are handled.
#[derive(Debug)]
pub struct Rule {
    /// Regular expression tested against a window's title or process name.
    pub pattern: String,
    pub has_custom_titlebar: bool,
    pub manage: bool,
    pub chromium: bool,
    pub firefox: bool,
    pub remove_frame: bool,
    /// Workspace the window is forced onto; -1 leaves it unassigned.
    pub workspace: i32,
}

/// A rule with its pattern as characters.
pub struct RuleView {
    pub pattern: Seq<char>,
    pub has_custom_titlebar: bool,
    pub manage: bool,
    pub chromium: bool,
    pub firefox: bool,
    pub remove_frame: bool,
    pub workspace: i32,
}

impl View for Rule {
    type V = RuleView;

    open spec fn view(&self) -> RuleView {
        RuleView {
            pattern: self.pattern@,
            has_custom_titlebar: self.has_custom_titlebar,
            manage: self.manage,
            chromium: self.chromium,
            firefox: self.firefox,
            remove_frame: self.remove_frame,
            workspace: self.workspace,
        }
    }
}

/// The rule that a rule entry of a configuration starts from.
pub open spec fn default_rule_view() -> RuleView {
    RuleView {
        pattern: Seq::empty(),
        has_custom_titlebar: false,
        manage: true,
        chromium: false,
        firefox: false,
        remove_frame: true,
        workspace: -1i32,
    }
}

/// The flags of a rule, without its pattern.
pub open spec fn same_flags(a: Rule, b: Rule) -> bool {
    &&& a.has_custom_titlebar == b.has_custom_titlebar
    &&& a.manage == b.manage
    &&& a.chromium == b.chromium
    &&& a.firefox == b.firefox
    &&& a.remove_frame == b.remove_frame
    &&& a.workspace == b.workspace
}

/// The flags that apply to a window that no rule matched.
pub open spec fn has_default_flags(r: Rule) -> bool {
    &&& !r.has_custom_titlebar
    &&& r.manage
    &&& !r.chromium
    &&& !r.firefox
    &&& r.remove_frame
    &&& r.workspace == -1
}

/// Whether `rule` matches `text`.
pub open spec fn rule_matches(rule: Rule, text: Seq<char>) -> bool {
    pattern_is_valid(rule.pattern@) && pattern_matches(rule.pattern@, text)
}

/// `r` is the index of the first rule of `rules` that matches `text`, or none
/// when no rule does.
pub open spec fn is_first_match(rules: Seq<Rule>, text: Seq<char>, r: Option<usize>) -> bool {
    match r {
        Some(i) => {
            &&& i < rules.len()
            &&& rule_matches(rules[i as int], text)
            &&& forall|j: int| 0 <= j < i ==> !rule_matches(#[trigger] rules[j], text)
        },
        None => forall|j: int| 0 <= j < rules.len() ==> !rule_matches(#[trigger] rules[j], text),
    }
}

impl Rule {
    /// The rule with the default flags and the empty pattern, which matches every text.
    pub fn new() -> (r: Rule)
        ensures
            has_default_flags(r),
            r.pattern@.len() == 0,
            r@ == default_rule_view(),
    {
        Rule {
            pattern: String::new(),
            has_custom_titlebar: false,
            manage: true,
            remove_frame: true,
            chromium: false,
            firefox: false,
            workspace: -1,
        }
    }

    pub fn copy(&self) -> (r: Rule)
        ensures
            r == *self,
    {
        Rule {
            pattern: self.pattern.clone(),
            has_custom_titlebar: self.has_custom_titlebar,
            manage: self.manage,
            chromium: self.chromium,
            firefox: self.firefox,
            remove_frame: self.remove_frame,
            workspace: self.workspace,
        }
    }

    /// Whether this rule's pattern matches `text`.
    pub fn matches(&self, text: &str) -> (r: bool)
        ensures
            r == rule_matches(*self, text@),
    {
        regex_is_match(self.pattern.as_str(), text)
    }
}

impl Default for Rule {
    fn default() -> (r: Rule)
        ensures
            has_default_flags(r),
            r.pattern@.len() == 0,
    {
        Rule::new()
    }
}

/// Whether `pattern` is a well-formed regular expression.
pub fn is_valid_pattern(pattern: &str) -> (r: bool)
    ensures
        r == pattern_is_valid(pattern@),
{
    regex_compiles(pattern)
}

/// Index of the first rule of `rules` whose pattern matches `text`; later
/// matches are never considered.
pub fn find_rule(rules: &Vec<Rule>, text: &str) -> (r: Option<usize>)
    ensures
        is_first_match(rules@, text@, r),
{
    let mut i: usize = 0;
    while i < rules.len()
        invariant
            i <= rules@.len(),
            forall|j: int| 0 <= j < i ==> !rule_matches(#[trigger] rules@[j], text@),
        decreases rules@.len() - i,
    {
        if rules[i].matches(text) {
            return Some(i);
        }
        i = i + 1;
    }
    None
}

/// The first rule of `rules` whose pattern matches `text`, copied.
pub fn match_rule(rules: &Vec<Rule>, text: &str) -> (r: Option<Rule>)
    ensures
        match r {
            Some(rule) => exists|i: usize| is_first_match(rules@, text@, Some(i)) && rule
                == rules@[i as int],
            None => is_first_match(rules@, text@, None),
        },
{
    match find_rule(rules, text) {
        Some(i) => Some(rules[i].copy()),
        None => None,
    }
}

/// When two rules both match a text, the first of them is the one chosen:
/// the second is never taken and the two are never merged.
pub proof fn lemma_first_match_wins(rules: Seq<Rule>, text: Seq<char>, r: Option<usize>)
    requires
        rules.len() >= 2,
        rule_matches(rules[0], text),
        rule_matches(rules[1], text),
        is_first_match(rules, text, r),
    ensures
        r == Some(0usize),
{
    if let Some(i) = r {
        if i > 0 {
            assert(!rule_matches(rules[0], text));
        }
    }
}

} // verus!
