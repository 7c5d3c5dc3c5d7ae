//! Template rules and profiles.
//!
//! A [`Template`] is one pattern-based transformation, either a literal
//! replacement ([`raw::Raw`]) or a timestamp substitution
//! ([`date_time::DateTime`]), behind the shared [`Format`] capability set.
//! A [`Profile`] is a labeled, ordered sequence of rules with a fold-based
//! apply operation: [`apply_rules`] is its specification.

pub mod date_time;
pub mod raw;

use vstd::prelude::*;

use crate::clock::LocalInstant;
use crate::clock::now_local;
use crate::clock::spec_render;
use crate::template::date_time::DateTime;
use crate::template::date_time::DateTimeModel;
use crate::template::raw::Raw;
use crate::template::raw::RawModel;
use crate::text::replaced;

verus! {

/// The capability set shared by every kind of template rule.
pub trait Format: Sized {
    /// Whether the rule takes part in a profile application.
    spec fn spec_enabled(&self) -> bool;

    /// The rule with its enabled flag set to `enabled`, all else unchanged.
    spec fn spec_with_enabled(&self, enabled: bool) -> Self;

    /// The text the rule produces from `input` at the instant `now`.
    spec fn spec_format(&self, input: Seq<char>, now: LocalInstant) -> Seq<char>;

    /// A short human-readable description of the rule.
    spec fn spec_describe(&self) -> Seq<char>;

    /// Transform `input` at the instant `now`. A rule never fails: where its
    /// pattern is absent the input comes back unchanged.
    fn format_at(&self, input: &str, now: &LocalInstant) -> (out: String)
        ensures
            out@ == self.spec_format(input@, *now),
    ;

    fn is_enabled(&self) -> (enabled: bool)
        ensures
            enabled == self.spec_enabled(),
    ;

    fn set_enabled(&mut self, is_enabled: bool)
        ensures
            *final(self) == old(self).spec_with_enabled(is_enabled),
    ;

    fn describe(&self) -> (d: String)
        ensures
            d@ == self.spec_describe(),
    ;
}

/// A template rule: the tagged union over the rule kinds.
#[derive(Clone, Debug, PartialEq, Eq)]
pub enum Template {
    Raw(Raw),
    DateTime(DateTime),
}

/// Mathematical model of a [`Template`].
#[verifier::ext_equal]
pub enum TemplateModel {
    Raw(RawModel),
    DateTime(DateTimeModel),
}

impl View for Template {
    type V = TemplateModel;

    open spec fn view(&self) -> TemplateModel {
        match self {
            Template::Raw(t) => TemplateModel::Raw(t@),
            Template::DateTime(t) => TemplateModel::DateTime(t@),
        }
    }
}

/// Whether `rule` takes part in a profile application.
pub open spec fn rule_enabled(rule: TemplateModel) -> bool {
    match rule {
        TemplateModel::Raw(m) => m.enabled,
        TemplateModel::DateTime(m) => m.enabled,
    }
}

/// The text `rule` produces from `input` at the instant `now`, whether or
/// not the rule is enabled.
pub open spec fn rule_output(rule: TemplateModel, input: Seq<char>, now: LocalInstant) -> Seq<
    char,
> {
    match rule {
        TemplateModel::Raw(m) => replaced(input, m.pattern, m.replacement),
        TemplateModel::DateTime(m) => match spec_render(now, m.format) {
            Some(stamp) => replaced(input, m.pattern, stamp),
            None => input,
        },
    }
}

/// One step of a profile application: an enabled rule transforms the text, a
/// disabled one is skipped.
pub open spec fn rule_step(rule: TemplateModel, input: Seq<char>, now: LocalInstant) -> Seq<
    char,
> {
    if rule_enabled(rule) {
        rule_output(rule, input, now)
    } else {
        input
    }
}

/// Fold the rules, in order, over `input` at the instant `now`: the
/// specification of `Profile::apply`.
pub open spec fn apply_rules(
    rules: Seq<TemplateModel>,
    input: Seq<char>,
    now: LocalInstant,
) -> Seq<char>
    decreases rules.len(),
{
    if rules.len() == 0 {
        input
    } else {
        apply_rules(rules.drop_first(), rule_step(rules[0], input, now), now)
    }
}

/// Applying a concatenation of rule sequences is the sequential composition
/// of applying each part: the whole transformation is
/// `rn.format(...r1.format(s)...)` over the rules in order.
pub proof fn lemma_apply_rules_compose(
    front: Seq<TemplateModel>,
    back: Seq<TemplateModel>,
    input: Seq<char>,
    now: LocalInstant,
)
    ensures
        apply_rules(front + back, input, now) == apply_rules(
            back,
            apply_rules(front, input, now),
            now,
        ),
    decreases front.len(),
{
    if front.len() == 0 {
        assert(front + back =~= back);
    } else {
        assert((front + back)[0] == front[0]);
        assert((front + back).drop_first() =~= front.drop_first() + back);
        lemma_apply_rules_compose(front.drop_first(), back, rule_step(front[0], input, now), now);
    }
}

/// A disabled rule is skipped entirely: removing it from the sequence leaves
/// the application unchanged on every input.
pub proof fn lemma_apply_rules_skips_disabled(
    rules: Seq<TemplateModel>,
    i: int,
    input: Seq<char>,
    now: LocalInstant,
)
    requires
        0 <= i < rules.len(),
        !rule_enabled(rules[i]),
    ensures
        apply_rules(rules, input, now) == apply_rules(rules.remove(i), input, now),
    decreases rules.len(),
{
    if i == 0 {
        assert(rules.remove(0) =~= rules.drop_first());
    } else {
        assert(rules.remove(i)[0] == rules[0]);
        assert(rules.remove(i).drop_first() =~= rules.drop_first().remove(i - 1));
        assert(rules.drop_first()[i - 1] == rules[i]);
        lemma_apply_rules_skips_disabled(
            rules.drop_first(),
            i - 1,
            rule_step(rules[0], input, now),
            now,
        );
    }
}

/// An empty rule sequence transforms nothing: the input comes back as it
/// was.
pub proof fn lemma_apply_rules_empty(input: Seq<char>, now: LocalInstant)
    ensures
        apply_rules(Seq::<TemplateModel>::empty(), input, now) == input,
{
}

impl Template {
    /// A literal-replacement rule, enabled.
    pub fn raw(raw: &str, replace: &str) -> (t: Template)
        ensures
            t@ == (TemplateModel::Raw(
                RawModel { pattern: raw@, replacement: replace@, enabled: true },
            )),
    {
        Template::Raw(Raw { raw: raw.to_owned(), replace: replace.to_owned(), is_enabled: true })
    }

    /// A timestamp rule, enabled.
    pub fn date_time(raw: &str, format: &str) -> (t: Template)
        ensures
            t@ == (TemplateModel::DateTime(
                DateTimeModel { pattern: raw@, format: format@, enabled: true },
            )),
    {
        Template::DateTime(
            DateTime { raw: raw.to_owned(), format: format.to_owned(), is_enabled: true },
        )
    }

    /// Transform `input` at the current instant: the clock is read once, so
    /// every occurrence of the pattern receives the same rendered text.
    pub fn format(&self, input: String) -> (out: String)
        ensures
            exists|now: LocalInstant| out@ == rule_output(self@, input@, now),
    {
        let now = now_local();
        self.format_at(input.as_str(), &now)
    }
}

impl Format for Template {
    open spec fn spec_enabled(&self) -> bool {
        rule_enabled(self@)
    }

    open spec fn spec_with_enabled(&self, enabled: bool) -> Template {
        match self {
            Template::Raw(t) => Template::Raw(t.spec_with_enabled(enabled)),
            Template::DateTime(t) => Template::DateTime(t.spec_with_enabled(enabled)),
        }
    }

    open spec fn spec_format(&self, input: Seq<char>, now: LocalInstant) -> Seq<char> {
        rule_output(self@, input, now)
    }

    open spec fn spec_describe(&self) -> Seq<char> {
        match self {
            Template::Raw(t) => t.spec_describe(),
            Template::DateTime(t) => t.spec_describe(),
        }
    }

    fn format_at(&self, input: &str, now: &LocalInstant) -> (out: String) {
        match self {
            Template::Raw(t) => t.format_at(input, now),
            Template::DateTime(t) => t.format_at(input, now),
        }
    }

    fn is_enabled(&self) -> (enabled: bool) {
        match self {
            Template::Raw(t) => t.is_enabled(),
            Template::DateTime(t) => t.is_enabled(),
        }
    }

    fn set_enabled(&mut self, is_enabled: bool) {
        match self {
            Template::Raw(t) => t.set_enabled(is_enabled),
            Template::DateTime(t) => t.set_enabled(is_enabled),
        }
    }

    fn describe(&self) -> (d: String) {
        match self {
            Template::Raw(t) => t.describe(),
            Template::DateTime(t) => t.describe(),
        }
    }
}

/// A labeled, ordered collection of template rules.
#[derive(Clone, Debug, PartialEq, Eq)]
pub struct Profile {
    pub label: String,
    pub path: String,
    pub matches: Vec<Template>,
}

/// Mathematical model of a [`Profile`].
#[verifier::ext_equal]
pub struct ProfileModel {
    pub label: Seq<char>,
    pub path: Seq<char>,
    pub rules: Seq<TemplateModel>,
}

impl View for Profile {
    type V = ProfileModel;

    open spec fn view(&self) -> ProfileModel {
        ProfileModel {
            label: self.label@,
            path: self.path@,
            rules: self.matches@.map_values(|t: Template| t@),
        }
    }
}

impl Profile {
    /// A profile with the given label, provenance path and seed rules.
    pub fn new(label: &str, path: &str, matches: Vec<Template>) -> (p: Profile)
        ensures
            p@ == (ProfileModel {
                label: label@,
                path: path@,
                rules: matches@.map_values(|t: Template| t@),
            }),
    {
        Profile { label: label.to_owned(), path: path.to_owned(), matches }
    }

    /// Append one rule. Extension is uniformly builder-style: the extended
    /// profile is returned by value.
    pub fn add_match(self, template: Template) -> (p: Profile)
        ensures
            p@.label == self@.label,
            p@.path == self@.path,
            p@.rules == self@.rules.push(template@),
    {
        let ghost m0 = self.matches@;
        let mut p = self;
        p.matches.push(template);
        proof {
            assert(p.matches@.map_values(|t: Template| t@) =~= m0.map_values(|t: Template| t@)
                .push(template@));
        }
        p
    }

    /// Fold the enabled rules, in order, over `input` at the instant `now`;
    /// a disabled rule is skipped without being invoked.
    pub fn apply_at(&self, input: &str, now: &LocalInstant) -> (out: String)
        ensures
            out@ == apply_rules(self@.rules, input@, *now),
    {
        let ghost rules = self@.rules;
        let mut acc = input.to_owned();
        let mut k: usize = 0;
        let n = self.matches.len();
        proof {
            assert(rules.skip(0) =~= rules);
        }
        while k < n
            invariant
                n == self.matches.len(),
                rules == self@.rules,
                k <= n,
                apply_rules(rules, input@, *now) == apply_rules(rules.skip(k as int), acc@, *now),
            decreases n - k,
        {
            let t = &self.matches[k];
            proof {
                assert(rules.skip(k as int)[0] == rules[k as int]);
                assert(rules.skip(k as int).drop_first() =~= rules.skip(k as int + 1));
            }
            if t.is_enabled() {
                acc = t.format_at(acc.as_str(), now);
            }
            k += 1;
        }
        proof {
            assert(rules.skip(n as int) =~= Seq::<TemplateModel>::empty());
        }
        acc
    }

    /// Apply the profile at the current instant. The clock is read once and
    /// every enabled rule sees that same instant.
    pub fn apply(&self, input: &str) -> (out: String)
        ensures
            exists|now: LocalInstant| out@ == apply_rules(self@.rules, input@, now),
    {
        let now = now_local();
        self.apply_at(input, &now)
    }

    /// The ordered rule sequence, for inspection.
    pub fn get_templates(&self) -> (r: &Vec<Template>)
        ensures
            r@ == self.matches@,
    {
        &self.matches
    }

    /// The ordered rule sequence, for editing in place. Mutation through the
    /// returned vector is the profile's new rule sequence; label and path
    /// stay as they were.
    pub fn get_templates_mut(&mut self) -> (r: &mut Vec<Template>)
        ensures
            *r == old(self).matches,
            final(self).label == old(self).label,
            final(self).path == old(self).path,
            final(self).matches == *final(r),
    {
        &mut self.matches
    }

    /// The profile's display label.
    pub fn describe(&self) -> (d: String)
        ensures
            d@ == self@.label,
    {
        self.label.clone()
    }
}

/// What the apply engine reports: transformation itself never fails, so only
/// selection can.
#[derive(Debug, Clone, PartialEq, Eq)]
pub enum TemplateError {
    /// The input could not be formatted.
    FormatError,
    /// No profile was selected when one was required.
    MatchError,
}

} // verus!
