//! Evidence: an uncertain value together with what is known about it.
//!
//! A value that comes from a sensor, a language model, an OCR pass, an API or
//! a user is wrapped with its confidence, its source, and the uses it is
//! permitted for. Whether such a value may be relied on is then decided by two
//! predicates, `meets_threshold` and `is_admissible_for`.
//!
//! Confidence is a real number held as a binary64 bit pattern (see
//! `binary64`).

use crate::ir::binary64::{
    at_most, clamp_to_unit, clamp_unit, in_unit_interval, is_nan, le, lt, ONE, ZERO,
};
use vstd::prelude::*;

verus! {

/// Where a piece of evidence comes from.
#[derive(Debug, Clone, Copy, PartialEq, Eq, Structural)]
pub enum EvidenceSource {
    LLM,
    OCR,
    API,
    User,
    Sensor,
}

/// What kind of statement a piece of evidence makes.
#[derive(Debug, Clone, Copy, PartialEq, Eq, Structural)]
pub enum EvidenceType {
    NumericEstimate,
    Categorical,
    TextExtraction,
    BooleanAssertion,
}

/// A value with its confidence, provenance and permitted uses.
#[derive(Debug, Clone)]
pub struct Evidence<T> {
    /// The value itself.
    pub value: T,
    /// Confidence in the value, a number of the unit interval.
    pub confidence: u64,
    /// Where the value comes from.
    pub source: EvidenceSource,
    /// What kind of statement the value makes.
    pub evidence_type: EvidenceType,
    /// Set when the value has been called into question.
    pub disputed: bool,
    /// Whether the value can be verified independently.
    pub verifiable: bool,
    /// The uses the value is permitted for; empty means any use.
    pub permitted_use: Vec<String>,
}

/// Evidence for a boolean signal.
pub type EvidenceBool = Evidence<bool>;

/// Evidence for a text signal.
pub type EvidenceText = Evidence<String>;

/// The confidence of evidence that states none: one.
pub fn default_confidence() -> (confidence: u64)
    ensures
        confidence == ONE,
{
    ONE
}

/// Evidence is taken to be verifiable unless it says otherwise.
pub fn default_verifiable() -> (verifiable: bool)
    ensures
        verifiable,
{
    true
}

/// Evidence as a mathematical value: the same fields, with the permitted uses
/// as a sequence of texts.
pub struct EvidenceView<T> {
    pub value: T,
    pub confidence: u64,
    pub source: EvidenceSource,
    pub evidence_type: EvidenceType,
    pub disputed: bool,
    pub verifiable: bool,
    pub permitted_use: Seq<Seq<char>>,
}

impl<T> View for Evidence<T> {
    type V = EvidenceView<T>;

    open spec fn view(&self) -> EvidenceView<T> {
        EvidenceView {
            value: self.value,
            confidence: self.confidence,
            source: self.source,
            evidence_type: self.evidence_type,
            disputed: self.disputed,
            verifiable: self.verifiable,
            permitted_use: self.permitted_use.deep_view(),
        }
    }
}

impl<T> EvidenceView<T> {
    /// Whether the confidence is a number of the unit interval, as it is for
    /// evidence built from a confidence that is a number.
    pub open spec fn well_formed(self) -> bool {
        in_unit_interval(self.confidence)
    }

    /// The confidence is at least the threshold, as numbers, and the evidence
    /// is not disputed.
    pub open spec fn meets_threshold(self, threshold: u64) -> bool {
        le(threshold, self.confidence) && !self.disputed
    }

    /// No use is singled out, or this one is among those that are.
    pub open spec fn is_admissible_for(self, use_case: Seq<char>) -> bool {
        self.permitted_use.len() == 0 || self.permitted_use.contains(use_case)
    }
}

impl<T> Evidence<T> {
    /// Evidence held with full confidence: undisputed, verifiable, and
    /// permitted for any use.
    pub fn new(value: T, source: EvidenceSource, evidence_type: EvidenceType) -> (evidence: Self)
        ensures
            evidence.value == value,
            evidence.confidence == ONE,
            evidence.source == source,
            evidence.evidence_type == evidence_type,
            !evidence.disputed,
            evidence.verifiable,
            evidence.permitted_use@.len() == 0,
            evidence@.well_formed(),
    {
        Evidence {
            value,
            confidence: ONE,
            source,
            evidence_type,
            disputed: false,
            verifiable: true,
            permitted_use: Vec::new(),
        }
    }

    /// Evidence held with the given confidence, saturated into the unit
    /// interval: a confidence below zero becomes zero, one above one becomes
    /// one, and one in between is kept. None is rejected. A confidence that is
    /// not a number is kept as it is.
    pub fn with_confidence(
        value: T,
        source: EvidenceSource,
        evidence_type: EvidenceType,
        confidence: u64,
    ) -> (evidence: Self)
        ensures
            evidence.value == value,
            evidence.confidence == clamp_to_unit(confidence),
            !is_nan(confidence) ==> evidence@.well_formed(),
            lt(confidence, ZERO) ==> evidence.confidence == ZERO,
            lt(ONE, confidence) ==> evidence.confidence == ONE,
            in_unit_interval(confidence) ==> evidence.confidence == confidence,
            evidence.source == source,
            evidence.evidence_type == evidence_type,
            !evidence.disputed,
            evidence.verifiable,
            evidence.permitted_use@.len() == 0,
    {
        Evidence {
            value,
            confidence: clamp_unit(confidence),
            source,
            evidence_type,
            disputed: false,
            verifiable: true,
            permitted_use: Vec::new(),
        }
    }

    /// Whether the evidence can be relied on at the given threshold: its
    /// confidence is at least the threshold and it is not disputed. Disputed
    /// evidence meets no threshold, not even zero.
    pub fn meets_threshold(&self, threshold: u64) -> (met: bool)
        ensures
            met == self@.meets_threshold(threshold),
            self.disputed ==> !met,
    {
        at_most(threshold, self.confidence) && !self.disputed
    }

    /// Whether the evidence may be used for the given purpose: always when no
    /// permitted use is listed, otherwise only when the purpose is listed,
    /// letter for letter.
    pub fn is_admissible_for(&self, use_case: &str) -> (admissible: bool)
        ensures
            admissible == self@.is_admissible_for(use_case@),
            self.permitted_use@.len() == 0 ==> admissible,
    {
        if self.permitted_use.len() == 0 {
            return true;
        }
        let ghost uses = self@.permitted_use;
        let wanted = use_case.to_owned();
        let mut i: usize = 0;
        while i < self.permitted_use.len()
            invariant
                i <= self.permitted_use.len(),
                uses == self@.permitted_use,
                wanted@ == use_case@,
                forall|k: int| 0 <= k < i ==> uses[k] != use_case@,
            decreases self.permitted_use.len() - i,
        {
            if self.permitted_use[i] == wanted {
                assert(uses[i as int] == use_case@);
                return true;
            }
            i += 1;
        }
        false
    }
}

} // verus!
