//! Core of a text-expansion engine.
//!
//! A [`template::Profile`] is a named, ordered collection of template rules.
//! Each rule either replaces a literal pattern with fixed text or replaces a
//! pattern with the current time rendered through a strftime-style format
//! specification. Applying a profile folds its enabled rules, in order, over
//! an input string; [`apply_format`] is the entry point that front ends call
//! with an input and an optional selected profile.

pub mod clock;
pub mod config;
pub mod record;
pub mod template;
pub mod text;

pub use crate::config::Config;
pub use crate::config::LoadError;
pub use crate::template::Format;
pub use crate::template::Profile;
pub use crate::template::Template;
pub use crate::template::TemplateError;

use vstd::prelude::*;

use crate::clock::LocalInstant;
use crate::template::apply_rules;

verus! {

/// Options handed in by a front end: free-text input, an optional profile
/// label to prefer, and whether an interactive session was requested.
#[derive(Debug, Clone)]
pub struct Opts {
    pub input: Option<String>,
    pub prefer: Option<String>,
    pub gui: bool,
}

/// Apply the preferred profile to `input` at the instant `now`. With no
/// profile selected the engine fails with `TemplateError::MatchError`: there
/// is no silent identity fallback.
pub fn apply_format_at(input: &str, prefer: &Option<Profile>, now: &LocalInstant) -> (r: Result<
    String,
    TemplateError,
>)
    ensures
        prefer is None ==> r == Err::<String, TemplateError>(TemplateError::MatchError),
        prefer matches Some(p) ==> r is Ok && r->Ok_0@ == apply_rules(p@.rules, input@, *now),
{
    if let Some(value) = prefer {
        Ok(value.apply_at(input, now))
    } else {
        Err(TemplateError::MatchError)
    }
}

/// Apply the preferred profile to `input` at the current instant. With no
/// profile selected the engine fails with `TemplateError::MatchError`: there
/// is no silent identity fallback.
pub fn apply_format(input: &str, prefer: &Option<Profile>) -> (r: Result<String, TemplateError>)
    ensures
        prefer is None ==> r == Err::<String, TemplateError>(TemplateError::MatchError),
        prefer matches Some(p) ==> r is Ok && exists|now: LocalInstant|
            r->Ok_0@ == apply_rules(p@.rules, input@, now),
{
    if let Some(value) = prefer {
        Ok(value.apply(input))
    } else {
        Err(TemplateError::MatchError)
    }
}

} // verus!
