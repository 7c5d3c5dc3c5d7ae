//! Literal-replacement template rules.

use vstd::prelude::*;

use crate::clock::LocalInstant;
use crate::template::Format;
use crate::text::replace_all;
use crate::text::replaced;

verus! {

/// A literal find-and-replace rule: every occurrence of `raw` becomes
/// `replace`.
#[derive(Clone, Debug, PartialEq, Eq)]
pub struct Raw {
    pub raw: String,
    pub replace: String,
    pub is_enabled: bool,
}

/// Mathematical model of a [`Raw`] rule.
#[verifier::ext_equal]
pub struct RawModel {
    pub pattern: Seq<char>,
    pub replacement: Seq<char>,
    pub enabled: bool,
}

impl View for Raw {
    type V = RawModel;

    open spec fn view(&self) -> RawModel {
        RawModel { pattern: self.raw@, replacement: self.replace@, enabled: self.is_enabled }
    }
}

impl Format for Raw {
    open spec fn spec_enabled(&self) -> bool {
        self.is_enabled
    }

    open spec fn spec_with_enabled(&self, enabled: bool) -> Raw {
        Raw { raw: self.raw, replace: self.replace, is_enabled: enabled }
    }

    open spec fn spec_format(&self, input: Seq<char>, now: LocalInstant) -> Seq<char> {
        replaced(input, self.raw@, self.replace@)
    }

    open spec fn spec_describe(&self) -> Seq<char> {
        self.raw@ + " -> "@ + self.replace@
    }

    fn format_at(&self, input: &str, now: &LocalInstant) -> (out: String) {
        replace_all(input, self.raw.as_str(), self.replace.as_str())
    }

    fn is_enabled(&self) -> (enabled: bool) {
        self.is_enabled
    }

    fn set_enabled(&mut self, is_enabled: bool) {
        self.is_enabled = is_enabled;
    }

    fn describe(&self) -> (d: String) {
        let mut d = self.raw.clone();
        d.append(" -> ");
        d.append(self.replace.as_str());
        d
    }
}

} // verus!
