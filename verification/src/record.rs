//! The persisted profile record.
//!
//! A profile is stored as one structured record per file: a label, a
//! provenance path, and an ordered list of rule entries tagged by kind. The
//! enabled flag is optional in a stored entry and defaults to true when
//! absent. The external loader only parses and serializes this shape;
//! turning records into profiles and back is done — and proved — here.

use vstd::prelude::*;

use crate::template::Profile;
use crate::template::ProfileModel;
use crate::template::Template;
use crate::template::TemplateModel;
use crate::template::date_time::DateTime;
use crate::template::date_time::DateTimeModel;
use crate::template::raw::Raw;
use crate::template::raw::RawModel;

verus! {

/// One stored rule entry, tagged by kind. `is_enabled` is `None` where the
/// stored entry omitted the flag.
#[derive(Clone, Debug, PartialEq, Eq)]
pub enum MatchRecord {
    Raw { raw: String, replace: String, is_enabled: Option<bool> },
    DateTime { raw: String, format: String, is_enabled: Option<bool> },
}

/// One stored profile.
#[derive(Clone, Debug, PartialEq, Eq)]
pub struct ProfileRecord {
    pub label: String,
    pub path: String,
    pub matches: Vec<MatchRecord>,
}

/// Mathematical model of a [`MatchRecord`].
#[verifier::ext_equal]
pub enum MatchRecordModel {
    Raw { pattern: Seq<char>, replacement: Seq<char>, enabled: Option<bool> },
    DateTime { pattern: Seq<char>, format: Seq<char>, enabled: Option<bool> },
}

/// Mathematical model of a [`ProfileRecord`].
#[verifier::ext_equal]
pub struct ProfileRecordModel {
    pub label: Seq<char>,
    pub path: Seq<char>,
    pub matches: Seq<MatchRecordModel>,
}

impl View for MatchRecord {
    type V = MatchRecordModel;

    open spec fn view(&self) -> MatchRecordModel {
        match self {
            MatchRecord::Raw { raw, replace, is_enabled } => MatchRecordModel::Raw {
                pattern: raw@,
                replacement: replace@,
                enabled: *is_enabled,
            },
            MatchRecord::DateTime { raw, format, is_enabled } => MatchRecordModel::DateTime {
                pattern: raw@,
                format: format@,
                enabled: *is_enabled,
            },
        }
    }
}

impl View for ProfileRecord {
    type V = ProfileRecordModel;

    open spec fn view(&self) -> ProfileRecordModel {
        ProfileRecordModel {
            label: self.label@,
            path: self.path@,
            matches: self.matches@.map_values(|m: MatchRecord| m@),
        }
    }
}

/// A stored enabled flag, with the default applied: an entry that omits the
/// flag loads as enabled.
pub open spec fn enabled_or_default(enabled: Option<bool>) -> bool {
    match enabled {
        Some(b) => b,
        None => true,
    }
}

/// The rule a stored entry loads as.
pub open spec fn rule_of_record(m: MatchRecordModel) -> TemplateModel {
    match m {
        MatchRecordModel::Raw { pattern, replacement, enabled } => TemplateModel::Raw(
            RawModel { pattern, replacement, enabled: enabled_or_default(enabled) },
        ),
        MatchRecordModel::DateTime { pattern, format, enabled } => TemplateModel::DateTime(
            DateTimeModel { pattern, format, enabled: enabled_or_default(enabled) },
        ),
    }
}

/// The entry a rule is stored as: the enabled flag is always written out.
pub open spec fn record_of_rule(rule: TemplateModel) -> MatchRecordModel {
    match rule {
        TemplateModel::Raw(m) => MatchRecordModel::Raw {
            pattern: m.pattern,
            replacement: m.replacement,
            enabled: Some(m.enabled),
        },
        TemplateModel::DateTime(m) => MatchRecordModel::DateTime {
            pattern: m.pattern,
            format: m.format,
            enabled: Some(m.enabled),
        },
    }
}

/// The profile a stored record loads as.
pub open spec fn profile_of_record(rec: ProfileRecordModel) -> ProfileModel {
    ProfileModel {
        label: rec.label,
        path: rec.path,
        rules: rec.matches.map_values(|m: MatchRecordModel| rule_of_record(m)),
    }
}

/// The record a profile is stored as.
pub open spec fn record_of_profile(p: ProfileModel) -> ProfileRecordModel {
    ProfileRecordModel {
        label: p.label,
        path: p.path,
        matches: p.rules.map_values(|r: TemplateModel| record_of_rule(r)),
    }
}

/// Round trip: storing a profile as a record and loading the record back
/// yields a structurally equal profile — same label and path, same rule
/// sequence with the same kinds, patterns and enabled flags.
pub proof fn lemma_record_round_trip(p: ProfileModel)
    ensures
        profile_of_record(record_of_profile(p)) == p,
{
    assert(profile_of_record(record_of_profile(p)).rules =~= p.rules);
    assert(profile_of_record(record_of_profile(p)) =~= p);
}

impl Profile {
    /// Write the profile out as a persistable record.
    pub fn to_record(&self) -> (r: ProfileRecord)
        ensures
            r@ == record_of_profile(self@),
    {
        let mut matches: Vec<MatchRecord> = Vec::new();
        let n = self.matches.len();
        let mut k: usize = 0;
        while k < n
            invariant
                n == self.matches.len(),
                k <= n,
                matches@.len() == k,
                forall|i: int|
                    0 <= i < k ==> matches@[i]@ == record_of_rule(#[trigger] self.matches@[i]@),
            decreases n - k,
        {
            let entry = match &self.matches[k] {
                Template::Raw(t) => MatchRecord::Raw {
                    raw: t.raw.clone(),
                    replace: t.replace.clone(),
                    is_enabled: Some(t.is_enabled),
                },
                Template::DateTime(t) => MatchRecord::DateTime {
                    raw: t.raw.clone(),
                    format: t.format.clone(),
                    is_enabled: Some(t.is_enabled),
                },
            };
            matches.push(entry);
            k += 1;
        }
        let r = ProfileRecord { label: self.label.clone(), path: self.path.clone(), matches };
        proof {
            assert(r@.matches =~= record_of_profile(self@).matches);
            assert(r@ =~= record_of_profile(self@));
        }
        r
    }

    /// Load a profile from a record. A rule entry that omits the enabled
    /// flag loads enabled.
    pub fn from_record(rec: &ProfileRecord) -> (p: Profile)
        ensures
            p@ == profile_of_record(rec@),
    {
        let mut matches: Vec<Template> = Vec::new();
        let n = rec.matches.len();
        let mut k: usize = 0;
        while k < n
            invariant
                n == rec.matches.len(),
                k <= n,
                matches@.len() == k,
                forall|i: int|
                    0 <= i < k ==> matches@[i]@ == rule_of_record(#[trigger] rec.matches@[i]@),
            decreases n - k,
        {
            let rule = match &rec.matches[k] {
                MatchRecord::Raw { raw, replace, is_enabled } => Template::Raw(
                    Raw {
                        raw: raw.clone(),
                        replace: replace.clone(),
                        is_enabled: is_enabled.unwrap_or(true),
                    },
                ),
                MatchRecord::DateTime { raw, format, is_enabled } => Template::DateTime(
                    DateTime {
                        raw: raw.clone(),
                        format: format.clone(),
                        is_enabled: is_enabled.unwrap_or(true),
                    },
                ),
            };
            matches.push(rule);
            k += 1;
        }
        let p = Profile { label: rec.label.clone(), path: rec.path.clone(), matches };
        proof {
            assert(p@.rules =~= profile_of_record(rec@).rules);
            assert(p@ =~= profile_of_record(rec@));
        }
        p
    }
}

} // verus!
