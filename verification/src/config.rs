//! The rule set: an ordered list of rules, each a condition with a format, and
//! the format that applies when no rule does.

use vstd::prelude::*;

verus! {

/// How to render one string and where to put it.
#[derive(Clone, Debug)]
pub struct Format {
    /// The template.
    pub with: String,
    /// The pointers of the values that fill the template, in the order of its
    /// placeholders.
    pub using: Vec<String>,
    /// The pointer at which the rendered string is written.
    pub output: String,
}

/// A rule: the format to use for a document that holds `value` at `key`.
#[derive(Clone, Debug)]
pub struct Match {
    /// The pointer of the value that decides.
    pub key: String,
    /// The text that the value must have.
    pub value: String,
    /// The format of the documents that the rule applies to.
    pub format: Format,
}

/// The rule without a condition.
#[derive(Clone, Debug)]
pub struct DefaultRule {
    /// The format of the documents that no other rule applies to.
    pub format: Format,
}

/// A rule set.
#[derive(Clone, Debug)]
pub struct Params {
    /// The rules, in the order in which they are tried. A rule set may have none.
    pub rules: Option<Vec<Match>>,
    /// The rule that applies when none of `rules` does.
    pub default: DefaultRule,
}

/// A format, as the contracts see it.
pub struct FormatSpec {
    pub template: Seq<char>,
    pub source_paths: Seq<Seq<char>>,
    pub destination_path: Seq<char>,
}

/// A rule, as the contracts see it.
pub struct RuleSpec {
    pub match_path: Seq<char>,
    pub match_value: Seq<char>,
    pub format: FormatSpec,
}

/// A rule set, as the contracts see it. A rule set without a list of rules and
/// one with an empty list are the same.
pub struct RuleSet {
    pub rules: Seq<RuleSpec>,
    pub default: FormatSpec,
}

impl View for Format {
    type V = FormatSpec;

    open spec fn view(&self) -> FormatSpec {
        FormatSpec {
            template: self.with@,
            source_paths: self.using.deep_view(),
            destination_path: self.output@,
        }
    }
}

impl View for Match {
    type V = RuleSpec;

    open spec fn view(&self) -> RuleSpec {
        RuleSpec { match_path: self.key@, match_value: self.value@, format: self.format@ }
    }
}

impl View for DefaultRule {
    type V = FormatSpec;

    open spec fn view(&self) -> FormatSpec {
        self.format@
    }
}

impl View for Params {
    type V = RuleSet;

    open spec fn view(&self) -> RuleSet {
        RuleSet {
            rules: match self.rules {
                Some(rules) => Seq::new(rules@.len(), |i: int| rules@[i]@),
                None => Seq::empty(),
            },
            default: self.default@,
        }
    }
}

} // verus!
