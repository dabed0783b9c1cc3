//! Severity levels and their total order.

use vstd::prelude::*;

verus! {

/// How severe a record is. Declared from the least to the most severe, so
/// that the derived order is the order of the ranks.
#[derive(Clone, Copy, Debug, PartialEq, Eq, PartialOrd, Ord, Hash, Structural)]
pub enum Severity {
    Trace,
    Debug,
    Info,
    Warn,
    Error,
}

impl Severity {
    /// Position in the order `Trace < Debug < Info < Warn < Error`.
    pub open spec fn spec_rank(self) -> nat {
        match self {
            Severity::Trace => 0,
            Severity::Debug => 1,
            Severity::Info => 2,
            Severity::Warn => 3,
            Severity::Error => 4,
        }
    }

    /// `self` is as severe as `threshold`, or more.
    pub open spec fn spec_at_least(self, threshold: Severity) -> bool {
        self.spec_rank() >= threshold.spec_rank()
    }

    /// The text that announces a record of this severity.
    pub open spec fn label_text(self) -> Seq<char> {
        match self {
            Severity::Trace => "trace:"@,
            Severity::Debug => "debug:"@,
            Severity::Info => "info:"@,
            Severity::Warn => "warning:"@,
            Severity::Error => "error:"@,
        }
    }

    /// The position of this severity in the order, from 0 for `Trace` to 4
    /// for `Error`.
    pub fn rank(self) -> (r: u8)
        ensures
            r == self.spec_rank(),
    {
        match self {
            Severity::Trace => 0,
            Severity::Debug => 1,
            Severity::Info => 2,
            Severity::Warn => 3,
            Severity::Error => 4,
        }
    }

    /// Whether this severity is as severe as `threshold`, or more.
    #[verifier::when_used_as_spec(spec_at_least)]
    pub fn at_least(self, threshold: Severity) -> (b: bool)
        ensures
            b == self.spec_at_least(threshold),
    {
        self.rank() >= threshold.rank()
    }

    /// The text that announces a record of this severity, colon included.
    pub fn label(self) -> (text: &'static str)
        ensures
            text@ == self.label_text(),
    {
        match self {
            Severity::Trace => "trace:",
            Severity::Debug => "debug:",
            Severity::Info => "info:",
            Severity::Warn => "warning:",
            Severity::Error => "error:",
        }
    }
}

/// The order of the severities is total: any two compare, each is as severe
/// as itself, two that are each as severe as the other are the same, and the
/// order carries over a level in between.
pub proof fn lemma_severity_order_is_total(a: Severity, b: Severity, c: Severity)
    ensures
        a.spec_at_least(a),
        a.spec_at_least(b) || b.spec_at_least(a),
        a.spec_at_least(b) && b.spec_at_least(a) ==> a == b,
        a.spec_at_least(b) && b.spec_at_least(c) ==> a.spec_at_least(c),
{
}

} // verus!
