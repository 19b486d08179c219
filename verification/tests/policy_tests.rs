use pam_fullmoon::PamFullmoonAction;
use pam_fullmoon::extract_action;

fn toks(items: &[&str]) -> Vec<String> {
    items.iter().map(|s| s.to_string()).collect()
}

#[test]
fn empty_tokens_default_to_deny() {
    assert_eq!(extract_action(&toks(&[])), PamFullmoonAction::Deny);
}

#[test]
fn no_action_token_defaults_to_deny() {
    assert_eq!(extract_action(&toks(&["service=login"])), PamFullmoonAction::Deny);
    assert_eq!(
        extract_action(&toks(&["service=login", "debug", "use_first_pass"])),
        PamFullmoonAction::Deny
    );
}

#[test]
fn action_allow_any_case_resolves_to_allow() {
    assert_eq!(extract_action(&toks(&["action=allow"])), PamFullmoonAction::Allow);
    assert_eq!(extract_action(&toks(&["action=Allow"])), PamFullmoonAction::Allow);
    assert_eq!(extract_action(&toks(&["action=ALLOW"])), PamFullmoonAction::Allow);
    assert_eq!(extract_action(&toks(&["action=aLLoW"])), PamFullmoonAction::Allow);
}

#[test]
fn action_deny_any_case_resolves_to_deny() {
    assert_eq!(extract_action(&toks(&["action=deny"])), PamFullmoonAction::Deny);
    assert_eq!(extract_action(&toks(&["action=Deny"])), PamFullmoonAction::Deny);
    assert_eq!(extract_action(&toks(&["action=DENY"])), PamFullmoonAction::Deny);
}

#[test]
fn unrecognised_action_value_degrades_to_deny() {
    assert_eq!(extract_action(&toks(&["action=garbage"])), PamFullmoonAction::Deny);
    assert_eq!(extract_action(&toks(&["action="])), PamFullmoonAction::Deny);
    assert_eq!(extract_action(&toks(&["action=allowed"])), PamFullmoonAction::Deny);
    assert_eq!(extract_action(&toks(&["action=action=deny"])), PamFullmoonAction::Deny);
}

#[test]
fn first_action_token_decides() {
    assert_eq!(
        extract_action(&toks(&["action=deny", "action=allow"])),
        PamFullmoonAction::Deny
    );
    assert_eq!(
        extract_action(&toks(&["service=login", "action=allow", "action=deny"])),
        PamFullmoonAction::Allow
    );
    assert_eq!(
        extract_action(&toks(&["action=garbage", "action=allow"])),
        PamFullmoonAction::Deny
    );
}

#[test]
fn try_from_recognises_both_values() {
    assert_eq!(PamFullmoonAction::try_from("deny"), Ok(PamFullmoonAction::Deny));
    assert_eq!(PamFullmoonAction::try_from("DENY"), Ok(PamFullmoonAction::Deny));
    assert_eq!(PamFullmoonAction::try_from("allow"), Ok(PamFullmoonAction::Allow));
    assert_eq!(PamFullmoonAction::try_from("Allow"), Ok(PamFullmoonAction::Allow));
    assert_eq!(PamFullmoonAction::try_from("grant"), Err(()));
    assert_eq!(PamFullmoonAction::try_from(""), Err(()));
}
