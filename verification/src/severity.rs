//! Maps a finding's severity score to a presentation tier.
//!
//! GuardDuty reports severity as a floating-point score. Verified code holds
//! the score in integer form instead: every tier boundary (1, 4, 7, 9, 10) is
//! a whole number, so the tier of a finite score depends only on its integer
//! part. The caller truncates the score toward zero (saturating at the ends of
//! `i64`) before handing it over, and passes `NotANumber` for a NaN score so
//! that the classifier treats that case explicitly rather than by accident of
//! comparison semantics.

use vstd::prelude::*;

verus! {

/// A severity score as the classifier reads it: the score truncated toward
/// zero, or the marker for a score that is not a number.
#[derive(Clone, Copy, Debug, PartialEq, Eq, Structural)]
pub enum Severity {
    Score(i64),
    NotANumber,
}

/// The presentation tier of a finding. Each tier selects a display colour
/// and an optional group mention.
#[derive(Clone, Copy, Debug, PartialEq, Eq, Structural)]
pub enum SeverityTier {
    Critical,
    High,
    Medium,
    Low,
    Unknown,
}

/// The tier a severity belongs to. A score in [9, 10) is Critical, [7, 9)
/// High, [4, 7) Medium, [1, 4) Low; everything else, including negative
/// scores, scores of 10 and above, and NaN, is Unknown.
pub open spec fn tier_of(s: Severity) -> SeverityTier {
    match s {
        Severity::NotANumber => SeverityTier::Unknown,
        Severity::Score(t) => if 9 <= t && t < 10 {
            SeverityTier::Critical
        } else if 7 <= t && t < 9 {
            SeverityTier::High
        } else if 4 <= t && t < 7 {
            SeverityTier::Medium
        } else if 1 <= t && t < 4 {
            SeverityTier::Low
        } else {
            SeverityTier::Unknown
        },
    }
}

/// The display colour of a tier.
pub open spec fn colour_spec(t: SeverityTier) -> Seq<char> {
    match t {
        SeverityTier::Critical => "#DF4661"@,
        SeverityTier::High => "#DB6B30"@,
        SeverityTier::Medium => "#FED141"@,
        SeverityTier::Low => "#00A3E0"@,
        SeverityTier::Unknown => "#BABABA"@,
    }
}

/// The group mention a tier triggers; empty for the quiet tiers.
pub open spec fn mention_spec(t: SeverityTier) -> Seq<char> {
    match t {
        SeverityTier::Critical => "@channel"@,
        SeverityTier::High => "@channel"@,
        SeverityTier::Medium => "@here"@,
        SeverityTier::Low => ""@,
        SeverityTier::Unknown => ""@,
    }
}

/// Classifies a severity into its presentation tier. The NaN marker falls
/// through to Unknown by an explicit arm, never by comparison fallout.
pub fn classify(s: Severity) -> (r: SeverityTier)
    ensures
        r == tier_of(s),
{
    match s {
        Severity::NotANumber => SeverityTier::Unknown,
        Severity::Score(t) => {
            if 9 <= t && t < 10 {
                SeverityTier::Critical
            } else if 7 <= t && t < 9 {
                SeverityTier::High
            } else if 4 <= t && t < 7 {
                SeverityTier::Medium
            } else if 1 <= t && t < 4 {
                SeverityTier::Low
            } else {
                SeverityTier::Unknown
            }
        },
    }
}

/// The display colour of a tier, as attached to the payload.
pub fn colour(t: SeverityTier) -> (r: &'static str)
    ensures
        r@ == colour_spec(t),
{
    match t {
        SeverityTier::Critical => "#DF4661",
        SeverityTier::High => "#DB6B30",
        SeverityTier::Medium => "#FED141",
        SeverityTier::Low => "#00A3E0",
        SeverityTier::Unknown => "#BABABA",
    }
}

/// The mention directive of a tier; the empty string where the tier is quiet.
pub fn mention(t: SeverityTier) -> (r: &'static str)
    ensures
        r@ == mention_spec(t),
{
    match t {
        SeverityTier::Critical => "@channel",
        SeverityTier::High => "@channel",
        SeverityTier::Medium => "@here",
        SeverityTier::Low => "",
        SeverityTier::Unknown => "",
    }
}

/// The quiet tiers carry no mention text at all: Low and Unknown map to the
/// empty string, not to a placeholder.
pub proof fn lemma_quiet_tiers_have_no_mention()
    ensures
        mention_spec(SeverityTier::Low) =~= Seq::<char>::empty(),
        mention_spec(SeverityTier::Unknown) =~= Seq::<char>::empty(),
        mention_spec(SeverityTier::Low).len() == 0,
        mention_spec(SeverityTier::Unknown).len() == 0,
{
    reveal_strlit("");
}

} // verus!
