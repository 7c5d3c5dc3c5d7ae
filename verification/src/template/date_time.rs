//! Timestamp template rules.

use vstd::prelude::*;

use crate::clock::LocalInstant;
use crate::clock::render_instant;
use crate::clock::spec_render;
use crate::template::Format;
use crate::text::replace_all;
use crate::text::replaced;

verus! {

/// A timestamp rule: every occurrence of `raw` becomes the instant rendered
/// through the strftime-style specification `format`.
#[derive(Clone, Debug, PartialEq, Eq)]
pub struct DateTime {
    pub raw: String,
    pub format: String,
    pub is_enabled: bool,
}

/// Mathematical model of a [`DateTime`] rule.
#[verifier::ext_equal]
pub struct DateTimeModel {
    pub pattern: Seq<char>,
    pub format: Seq<char>,
    pub enabled: bool,
}

impl View for DateTime {
    type V = DateTimeModel;

    open spec fn view(&self) -> DateTimeModel {
        DateTimeModel { pattern: self.raw@, format: self.format@, enabled: self.is_enabled }
    }
}

impl Format for DateTime {
    open spec fn spec_enabled(&self) -> bool {
        self.is_enabled
    }

    open spec fn spec_with_enabled(&self, enabled: bool) -> DateTime {
        DateTime { raw: self.raw, format: self.format, is_enabled: enabled }
    }

    /// The instant is rendered once; every occurrence of the pattern receives
    /// that same rendered text. An instant or specification that cannot be
    /// rendered leaves the input unchanged: a rule never fails.
    open spec fn spec_format(&self, input: Seq<char>, now: LocalInstant) -> Seq<char> {
        match spec_render(now, self.format@) {
            Some(stamp) => replaced(input, self.raw@, stamp),
            None => input,
        }
    }

    open spec fn spec_describe(&self) -> Seq<char> {
        self.raw@ + " -> "@ + self.format@
    }

    fn format_at(&self, input: &str, now: &LocalInstant) -> (out: String) {
        match render_instant(now, self.format.as_str()) {
            Some(stamp) => replace_all(input, self.raw.as_str(), stamp.as_str()),
            None => input.to_owned(),
        }
    }

    fn is_enabled(&self) -> (enabled: bool) {
        self.is_enabled
    }

    fn set_enabled(&mut self, is_enabled: bool) {
        self.is_enabled = is_enabled;
    }

    fn describe(&self) -> (d: String) {
        let mut d = self.raw.clone();
        d.append(" -> ");
        d.append(self.format.as_str());
        d
    }
}

} // verus!
