//! Configuration and the profile collection.
//!
//! The external loader walks the configured directory tree and parses one
//! profile record per leaf file; the collection it hands back behaves as a
//! label-keyed map. The map discipline — labels stay unique, a later record
//! with a seen label silently overwrites the earlier one — is enforced and
//! proved here, over a vector of profiles.

use vstd::prelude::*;

use crate::template::Profile;

verus! {

/// Where the external loader finds profile records: every leaf file under
/// `profile_dir` is one record, and subdirectories are recursed into.
#[derive(Clone, Debug, PartialEq, Eq)]
pub struct Config {
    pub profile_dir: String,
}

impl Config {
    /// A configuration rooted at `profile_dir`.
    pub fn new(profile_dir: &str) -> (c: Config)
        ensures
            c.profile_dir@ == profile_dir@,
    {
        Config { profile_dir: profile_dir.to_owned() }
    }
}

/// What the loading boundary reports. The core itself never raises these:
/// they surface to the front end, which decides between fallback and
/// failure.
#[derive(Clone, Debug, PartialEq, Eq)]
pub enum LoadError {
    /// A profile source could not be read.
    FileError,
    /// A profile source was malformed.
    FormatError,
}

/// Whether some profile in `profiles` carries `label`.
pub open spec fn has_profile(profiles: Seq<Profile>, label: Seq<char>) -> bool {
    exists|i: int| 0 <= i < profiles.len() && #[trigger] profiles[i]@.label == label
}

/// Labels are unique: the collection behaves as a label-keyed map.
pub open spec fn unique_labels(profiles: Seq<Profile>) -> bool {
    forall|i: int, j: int|
        0 <= i < j < profiles.len() ==> #[trigger] profiles[i]@.label != #[trigger] profiles[j]@.label
}

/// The first profile in `profiles` carrying `label`, if any.
pub fn find_profile<'a>(profiles: &'a Vec<Profile>, label: &str) -> (r: Option<&'a Profile>)
    ensures
        r is Some <==> has_profile(profiles@, label@),
        r matches Some(p) ==> exists|i: int|
            0 <= i < profiles@.len() && #[trigger] profiles@[i] == *p && p@.label == label@ && (
            forall|j: int| 0 <= j < i ==> profiles@[j]@.label != label@),
{
    let want: String = label.to_owned();
    let n = profiles.len();
    let mut k: usize = 0;
    while k < n
        invariant
            n == profiles@.len(),
            want@ == label@,
            k <= n,
            forall|j: int| 0 <= j < k ==> profiles@[j]@.label != label@,
        decreases n - k,
    {
        let p = &profiles[k];
        if p.label == want {
            proof {
                assert(profiles@[k as int] == *p);
                assert(profiles@[k as int]@.label == label@);
            }
            return Some(p);
        }
        k += 1;
    }
    None
}

/// Insert `profile` into the collection, keyed by its label: the first
/// profile already carrying the label is overwritten in place, and with none
/// present the profile is appended. Later insertions win; labels stay
/// unique.
pub fn insert_profile(profiles: &mut Vec<Profile>, profile: Profile)
    ensures
        !has_profile(old(profiles)@, profile@.label) ==> final(profiles)@ == old(
            profiles,
        )@.push(profile),
        has_profile(old(profiles)@, profile@.label) ==> exists|i: int|
            0 <= i < old(profiles)@.len() && #[trigger] old(profiles)@[i]@.label == profile@.label
                && (forall|j: int| 0 <= j < i ==> old(profiles)@[j]@.label != profile@.label)
                && final(profiles)@ == old(profiles)@.update(i, profile),
        unique_labels(old(profiles)@) ==> unique_labels(final(profiles)@),
{
    let n = profiles.len();
    let mut k: usize = 0;
    while k < n
        invariant
            n == profiles@.len(),
            profiles@ == old(profiles)@,
            k <= n,
            forall|j: int| 0 <= j < k ==> profiles@[j]@.label != profile@.label,
        decreases n - k,
    {
        let same = profiles[k].label == profile.label;
        if same {
            let ghost before = profiles@;
            let ghost at = k as int;
            profiles.set(k, profile);
            proof {
                assert(before[at]@.label == profiles@[at]@.label);
                if unique_labels(before) {
                    assert forall|i: int, j: int| 0 <= i < j < profiles@.len() implies profiles@[i]@.label
                        != profiles@[j]@.label by {
                        if i != at && j != at {
                            assert(profiles@[i] == before[i] && profiles@[j] == before[j]);
                        } else if i == at {
                            assert(profiles@[j] == before[j]);
                            assert(before[at]@.label != before[j]@.label);
                        } else {
                            assert(profiles@[i] == before[i]);
                            assert(before[i]@.label != before[at]@.label);
                        }
                    }
                }
            }
            return ;
        }
        k += 1;
    }
    let ghost before = profiles@;
    profiles.push(profile);
    proof {
        if unique_labels(before) {
            assert forall|i: int, j: int| 0 <= i < j < profiles@.len() implies profiles@[i]@.label
                != profiles@[j]@.label by {
                if j < before.len() {
                    assert(profiles@[i] == before[i] && profiles@[j] == before[j]);
                } else {
                    assert(profiles@[i] == before[i]);
                    assert(before[i]@.label != profile@.label);
                }
            }
        }
    }
}

} // verus!
