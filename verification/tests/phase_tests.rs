use std::time::Duration;
use std::time::SystemTime;

use pam_fullmoon::Phase;
use pam_fullmoon::phase_at;

#[test]
fn from_name_decodes_all_eight_phases() {
    assert_eq!(Phase::from_name("New"), Some(Phase::New));
    assert_eq!(Phase::from_name("Waxing Crescent"), Some(Phase::WaxingCrescent));
    assert_eq!(Phase::from_name("First Quarter"), Some(Phase::FirstQuarter));
    assert_eq!(Phase::from_name("Waxing Gibbous"), Some(Phase::WaxingGibbous));
    assert_eq!(Phase::from_name("Full"), Some(Phase::Full));
    assert_eq!(Phase::from_name("Waning Gibbous"), Some(Phase::WaningGibbous));
    assert_eq!(Phase::from_name("Last Quarter"), Some(Phase::LastQuarter));
    assert_eq!(Phase::from_name("Waning Crescent"), Some(Phase::WaningCrescent));
}

#[test]
fn from_name_rejects_unknown_names() {
    assert_eq!(Phase::from_name(""), None);
    assert_eq!(Phase::from_name("full"), None);
    assert_eq!(Phase::from_name("Fullish"), None);
    assert_eq!(Phase::from_name("Waxing"), None);
}

#[test]
fn epoch_is_a_new_moon() {
    assert_eq!(phase_at(SystemTime::UNIX_EPOCH), Phase::New);
}

#[test]
fn a_known_full_moon_instant_is_full() {
    // Half a synodic cycle past the provider's reference new moon.
    let t = SystemTime::UNIX_EPOCH + Duration::from_secs(948_458_185);
    assert_eq!(phase_at(t), Phase::Full);
}

#[test]
fn a_quarter_cycle_later_is_a_last_quarter() {
    // Three quarters of a synodic cycle past the reference new moon.
    let t = SystemTime::UNIX_EPOCH + Duration::from_secs(948_458_185 + 637_861);
    assert_eq!(phase_at(t), Phase::LastQuarter);
}
