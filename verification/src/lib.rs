//! A PAM account-management module that permits or rejects logins according
//! to the current lunar phase and a configured policy direction.
//!
//! The library holds the whole decision path: resolving the policy from the
//! host-supplied configuration tokens, classifying the lunar phase of an
//! instant, evaluating the policy against the phase, translating the
//! outcome into the host's result-code vocabulary, and deciding whether a
//! rejection's diagnostic may be emitted. The C calling convention, the
//! clock, the environment and the console stay outside.

mod codes;
mod engine;
mod phase;
mod policy;
mod report;
mod text;

pub use codes::PAM_SILENT;
pub use codes::PamItemType;
pub use codes::PamResultCode;
pub use engine::Outcome;
pub use engine::evaluate;
pub use engine::fullmoon_deny_message;
pub use engine::no_fullmoon_message;
pub use engine::outcome_code;
pub use engine::pam_sm_acct_mgmt;
pub use engine::pam_sm_authenticate;
pub use engine::pam_sm_chauthtok;
pub use engine::pam_sm_close_session;
pub use engine::pam_sm_open_session;
pub use engine::pam_sm_setcred;
pub use phase::Phase;
pub use phase::is_fullmoon;
pub use phase::phase_at;
pub use phase::phase_of_name;
pub use phase::provider_phase_name;
pub use policy::PamFullmoonAction;
pub use policy::action_value;
pub use policy::extract_action;
pub use policy::is_action_token;
pub use policy::lemma_first_action_token_decides;
pub use policy::lemma_no_action_token_defaults_to_deny;
pub use policy::policy_of_value;
pub use policy::resolved_policy;
pub use report::emits;
pub use report::should_emit;
pub use text::eq_ignore_ascii_case;
pub use text::str_eq;
pub use text::str_eq_ignore_ascii_case;
