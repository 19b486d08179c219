//! The lunar phase: the eight named phases, a verified decoder from the
//! provider's phase names, and the query that derives the phase for a given
//! instant through the `moon_phase` crate.

use vstd::prelude::*;

use crate::text::str_eq;

verus! {

/// The eight named lunar phases. The policy evaluation only ever
/// distinguishes `Full` from the rest.
#[derive(Clone, Copy, Debug, PartialEq, Eq, Structural)]
pub enum Phase {
    New,
    WaxingCrescent,
    FirstQuarter,
    WaxingGibbous,
    Full,
    WaningGibbous,
    LastQuarter,
    WaningCrescent,
}

#[verifier::external_type_specification]
#[verifier::external_body]
pub struct ExSystemTime(std::time::SystemTime);

/// The phase name the moon-phase provider assigns to an instant. The
/// provider computes it from the instant alone, with exactly-rounded
/// floating-point operations, so it is a function of the instant.
pub uninterp spec fn provider_phase_name(time: std::time::SystemTime) -> Seq<char>;

/// The phase named by a provider phase name; any other string names none.
pub open spec fn phase_of_name(name: Seq<char>) -> Option<Phase> {
    if name == "New"@ {
        Some(Phase::New)
    } else if name == "Waxing Crescent"@ {
        Some(Phase::WaxingCrescent)
    } else if name == "First Quarter"@ {
        Some(Phase::FirstQuarter)
    } else if name == "Waxing Gibbous"@ {
        Some(Phase::WaxingGibbous)
    } else if name == "Full"@ {
        Some(Phase::Full)
    } else if name == "Waning Gibbous"@ {
        Some(Phase::WaningGibbous)
    } else if name == "Last Quarter"@ {
        Some(Phase::LastQuarter)
    } else if name == "Waning Crescent"@ {
        Some(Phase::WaningCrescent)
    } else {
        None
    }
}

/// Relies on `moon_phase::MoonPhase::new`: its `phase_name` field depends
/// on the given instant alone and is drawn from the crate's fixed table of
/// the eight phase names, whichever phase the instant falls in.
#[verifier::external_body]
fn phase_name_at(time: std::time::SystemTime) -> (r: &'static str)
    ensures
        r@ == provider_phase_name(time),
        r@ == "New"@ || r@ == "Waxing Crescent"@ || r@ == "First Quarter"@ || r@
            == "Waxing Gibbous"@ || r@ == "Full"@ || r@ == "Waning Gibbous"@ || r@
            == "Last Quarter"@ || r@ == "Waning Crescent"@,
{
    moon_phase::MoonPhase::new(time).phase_name
}

impl Phase {
    /// Decodes a provider phase name into the phase it names; any other
    /// string is rejected.
    pub fn from_name(name: &str) -> (r: Option<Phase>)
        ensures
            r == phase_of_name(name@),
    {
        if str_eq(name, "New") {
            Some(Phase::New)
        } else if str_eq(name, "Waxing Crescent") {
            Some(Phase::WaxingCrescent)
        } else if str_eq(name, "First Quarter") {
            Some(Phase::FirstQuarter)
        } else if str_eq(name, "Waxing Gibbous") {
            Some(Phase::WaxingGibbous)
        } else if str_eq(name, "Full") {
            Some(Phase::Full)
        } else if str_eq(name, "Waning Gibbous") {
            Some(Phase::WaningGibbous)
        } else if str_eq(name, "Last Quarter") {
            Some(Phase::LastQuarter)
        } else if str_eq(name, "Waning Crescent") {
            Some(Phase::WaningCrescent)
        } else {
            None
        }
    }
}

/// The lunar phase at the given instant: the phase named by the provider's
/// classification of that instant. The caller supplies the instant, so a
/// fixed time can be injected in place of the real clock.
pub fn phase_at(time: std::time::SystemTime) -> (r: Phase)
    ensures
        Some(r) == phase_of_name(provider_phase_name(time)),
{
    let name = phase_name_at(time);
    match Phase::from_name(name) {
        Some(phase) => phase,
        None => vstd::pervasive::unreached(),
    }
}

/// Tells whether the given phase is the full moon, the only classification
/// the policy evaluation distinguishes.
pub fn is_fullmoon(phase: &Phase) -> (r: bool)
    ensures
        r == (phase is Full),
{
    match phase {
        Phase::Full => true,
        _ => false,
    }
}

} // verus!
