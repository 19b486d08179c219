//! The policy evaluation and the module's entry points: the
//! account-management decision that combines the parsed policy with the
//! current lunar phase, and the stubs for the other lifecycle stages.

use vstd::prelude::*;

use crate::codes::PamResultCode;
use crate::phase::Phase;
use crate::phase::is_fullmoon;
use crate::policy::PamFullmoonAction;
use crate::policy::extract_action;
use crate::policy::resolved_policy;
use crate::report::emits;
use crate::report::should_emit;

verus! {

/// The classification a single call produces: permit the login, or reject
/// it with a diagnostic message naming the reason.
#[derive(Clone, Copy, Debug, PartialEq, Eq)]
pub enum Outcome {
    Permit,
    Reject { message: &'static str },
}

/// The diagnostic attached when the `Deny` policy rejects during a full moon.
pub open spec fn fullmoon_deny_message() -> Seq<char> {
    "It's fullmoon, so no logins possible"@
}

/// The diagnostic attached when the `Allow` policy rejects outside a full moon.
pub open spec fn no_fullmoon_message() -> Seq<char> {
    "No fullmoon, no login"@
}

/// Evaluates the policy against the phase. `Allow` permits exactly during a
/// full moon and `Deny` exactly outside one; each rejection carries its own
/// diagnostic message.
pub fn evaluate(action: &PamFullmoonAction, phase: &Phase) -> (r: Outcome)
    ensures
        *action is Allow && *phase is Full ==> r is Permit,
        *action is Deny && !(*phase is Full) ==> r is Permit,
        *action is Deny && *phase is Full ==> (r matches Outcome::Reject { message } && message@
            == fullmoon_deny_message()),
        *action is Allow && !(*phase is Full) ==> (r matches Outcome::Reject { message }
            && message@ == no_fullmoon_message()),
{
    if is_fullmoon(phase) {
        match action {
            PamFullmoonAction::Allow => Outcome::Permit,
            PamFullmoonAction::Deny => Outcome::Reject {
                message: "It's fullmoon, so no logins possible",
            },
        }
    } else {
        match action {
            PamFullmoonAction::Allow => Outcome::Reject { message: "No fullmoon, no login" },
            PamFullmoonAction::Deny => Outcome::Permit,
        }
    }
}

/// Translates an outcome into the host's result-code vocabulary: a permit
/// is a success, a rejection an authentication error.
pub fn outcome_code(outcome: &Outcome) -> (r: PamResultCode)
    ensures
        *outcome is Permit ==> r == PamResultCode::PAM_SUCCESS,
        *outcome is Reject ==> r == PamResultCode::PAM_AUTH_ERR,
{
    match outcome {
        Outcome::Permit => PamResultCode::PAM_SUCCESS,
        Outcome::Reject { .. } => PamResultCode::PAM_AUTH_ERR,
    }
}

/// The account-management decision: resolves the policy from the
/// configuration tokens, evaluates it against the given phase, and returns
/// the host result code beside the diagnostic to emit, if any. A diagnostic
/// comes back only for a rejection, and only when the operator toggle is
/// set and the host's silent bit in `flags` is clear.
pub fn pam_sm_acct_mgmt(flags: u32, env_toggle_set: bool, args: &Vec<String>, phase: &Phase) -> (r:
    (PamResultCode, Option<&'static str>))
    ensures
        ({
            let pol = resolved_policy(args.deep_view());
            let full = *phase is Full;
            &&& pol is Allow && full ==> r.0 == PamResultCode::PAM_SUCCESS && r.1 is None
            &&& pol is Deny && !full ==> r.0 == PamResultCode::PAM_SUCCESS && r.1 is None
            &&& pol is Deny && full ==> r.0 == PamResultCode::PAM_AUTH_ERR && (if emits(
                env_toggle_set,
                flags,
            ) {
                r.1 matches Some(m) && m@ == fullmoon_deny_message()
            } else {
                r.1 is None
            })
            &&& pol is Allow && !full ==> r.0 == PamResultCode::PAM_AUTH_ERR && (if emits(
                env_toggle_set,
                flags,
            ) {
                r.1 matches Some(m) && m@ == no_fullmoon_message()
            } else {
                r.1 is None
            })
        }),
{
    let action = extract_action(args);
    let outcome = evaluate(&action, phase);
    let code = outcome_code(&outcome);
    match outcome {
        Outcome::Permit => (code, None),
        Outcome::Reject { message } => {
            if should_emit(env_toggle_set, flags) {
                (code, Some(message))
            } else {
                (code, None)
            }
        },
    }
}

/// The authentication stage: not implemented by this module, so every call
/// is answered with the "ignore" code.
pub fn pam_sm_authenticate(_flags: u32, _args: &Vec<String>) -> (r: PamResultCode)
    ensures
        r == PamResultCode::PAM_IGNORE,
{
    PamResultCode::PAM_IGNORE
}

/// The credential-setting stage: not implemented by this module, so every
/// call is answered with the "ignore" code.
pub fn pam_sm_setcred(_flags: u32, _args: &Vec<String>) -> (r: PamResultCode)
    ensures
        r == PamResultCode::PAM_IGNORE,
{
    PamResultCode::PAM_IGNORE
}

/// The session-opening stage: not implemented by this module, so every call
/// is answered with the "ignore" code.
pub fn pam_sm_open_session(_flags: u32, _args: &Vec<String>) -> (r: PamResultCode)
    ensures
        r == PamResultCode::PAM_IGNORE,
{
    PamResultCode::PAM_IGNORE
}

/// The session-closing stage: not implemented by this module, so every call
/// is answered with the "ignore" code.
pub fn pam_sm_close_session(_flags: u32, _args: &Vec<String>) -> (r: PamResultCode)
    ensures
        r == PamResultCode::PAM_IGNORE,
{
    PamResultCode::PAM_IGNORE
}

/// The authentication-token stage: not implemented by this module, so every
/// call is answered with the "ignore" code.
pub fn pam_sm_chauthtok(_flags: u32, _args: &Vec<String>) -> (r: PamResultCode)
    ensures
        r == PamResultCode::PAM_IGNORE,
{
    PamResultCode::PAM_IGNORE
}

} // verus!
