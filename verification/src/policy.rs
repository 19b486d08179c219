//! The configured policy direction and the parser that derives it from the
//! host-supplied configuration tokens.
//!
//! Each token may have the form `key=value`. The first token whose key is
//! `action` decides: a value of `allow` (in any letter case) selects
//! [`PamFullmoonAction::Allow`]; any other value, and the absence of an
//! `action` token altogether, falls back to the safe default
//! [`PamFullmoonAction::Deny`]. Malformed input never raises an error.

use vstd::prelude::*;
use vstd::string::StrSliceExecFns;

use crate::text::eq_ignore_ascii_case;
use crate::text::str_eq_ignore_ascii_case;

verus! {

/// The two-valued policy choice. `Deny` is the safe default: reject logins
/// during a full moon and accept them otherwise. `Allow` inverts this:
/// accept logins only during a full moon.
#[derive(Clone, Copy, Debug, PartialEq, Eq, Structural)]
pub enum PamFullmoonAction {
    Deny,
    Allow,
}

/// `t` is a configuration token of the form `action=...`.
pub open spec fn is_action_token(t: Seq<char>) -> bool {
    t.len() >= 7 && t.subrange(0, 7) == "action="@
}

/// The value part of an `action=...` token: everything after the `=`.
pub open spec fn action_value(t: Seq<char>) -> Seq<char> {
    t.skip(7)
}

/// The policy selected by a single `action` value: `allow` in any letter
/// case selects `Allow`; everything else falls back to `Deny`.
pub open spec fn policy_of_value(v: Seq<char>) -> PamFullmoonAction {
    if eq_ignore_ascii_case(v, "allow"@) {
        PamFullmoonAction::Allow
    } else {
        PamFullmoonAction::Deny
    }
}

/// The policy resolved from a whole token sequence: the value of the first
/// `action=...` token decides, and a sequence without one resolves to `Deny`.
pub open spec fn resolved_policy(toks: Seq<Seq<char>>) -> PamFullmoonAction
    decreases toks.len(),
{
    if toks.len() == 0 {
        PamFullmoonAction::Deny
    } else if is_action_token(toks[0]) {
        policy_of_value(action_value(toks[0]))
    } else {
        resolved_policy(toks.skip(1))
    }
}

impl PamFullmoonAction {
    /// Parses a single `action` value: `deny` and `allow` are recognised in
    /// any letter case; anything else is rejected.
    pub fn try_from(value: &str) -> (r: Result<PamFullmoonAction, ()>)
        ensures
            eq_ignore_ascii_case(value@, "allow"@) ==> r == Ok::<_, ()>(PamFullmoonAction::Allow),
            eq_ignore_ascii_case(value@, "deny"@) ==> r == Ok::<_, ()>(PamFullmoonAction::Deny),
            !eq_ignore_ascii_case(value@, "allow"@) && !eq_ignore_ascii_case(value@, "deny"@)
                ==> r == Err::<PamFullmoonAction, _>(()),
    {
        proof {
            reveal_strlit("allow");
            reveal_strlit("deny");
        }
        if str_eq_ignore_ascii_case(value, "deny") {
            Ok(PamFullmoonAction::Deny)
        } else if str_eq_ignore_ascii_case(value, "allow") {
            Ok(PamFullmoonAction::Allow)
        } else {
            Err(())
        }
    }
}

/// Tells whether `s` starts with the seven characters `action=`.
fn is_action_arg(s: &str) -> (r: bool)
    ensures
        r == is_action_token(s@),
{
    proof {
        reveal_strlit("action=");
    }
    let n = s.unicode_len();
    if n < 7 {
        return false;
    }
    let prefix = "action=";
    let mut i: usize = 0;
    while i < 7
        invariant
            i <= 7,
            n == s@.len(),
            n >= 7,
            prefix@ == "action="@,
            prefix@.len() == 7,
            forall|j: int| 0 <= j < i ==> s@[j] == prefix@[j],
        decreases 7 - i,
    {
        if s.get_char(i) != prefix.get_char(i) {
            assert(s@.subrange(0, 7) != "action="@) by {
                assert(s@.subrange(0, 7)[i as int] != "action="@[i as int]);
            }
            return false;
        }
        i += 1;
    }
    proof {
        assert(s@.subrange(0, 7) =~= "action="@);
    }
    true
}

proof fn lemma_resolved_policy_step(toks: Seq<Seq<char>>)
    requires
        toks.len() > 0,
        !is_action_token(toks[0]),
    ensures
        resolved_policy(toks) == resolved_policy(toks.skip(1)),
{
}

/// Resolves the policy from the host-supplied configuration tokens: the
/// first `action=...` token decides, and unparseable or missing
/// configuration silently degrades to `Deny`.
pub fn extract_action(args: &Vec<String>) -> (r: PamFullmoonAction)
    ensures
        r == resolved_policy(args.deep_view()),
{
    let ghost toks: Seq<Seq<char>> = args.deep_view();
    let n = args.len();
    let mut i: usize = 0;
    proof {
        assert(toks.skip(0) =~= toks);
    }
    while i < n
        invariant
            i <= n,
            n == args.len(),
            toks == args.deep_view(),
            toks.len() == n,
            forall|j: int| 0 <= j < i ==> !is_action_token(toks[j]),
            resolved_policy(toks) == resolved_policy(toks.skip(i as int)),
        decreases n - i,
    {
        let s: &str = args[i].as_str();
        assert(s@ == toks[i as int]);
        if is_action_arg(s) {
            let len = s.unicode_len();
            let value = s.substring_char(7, len);
            assert(value@ == action_value(toks[i as int]));
            let r = match PamFullmoonAction::try_from(value) {
                Ok(action) => action,
                Err(()) => PamFullmoonAction::Deny,
            };
            proof {
                assert(toks.skip(i as int).len() > 0);
                assert(toks.skip(i as int)[0] == toks[i as int]);
                assert(resolved_policy(toks.skip(i as int)) == policy_of_value(
                    action_value(toks[i as int]),
                ));
            }
            return r;
        }
        proof {
            lemma_resolved_policy_step(toks.skip(i as int));
            assert(toks.skip(i as int).skip(1) =~= toks.skip(i as int + 1));
        }
        i += 1;
    }
    proof {
        assert(toks.skip(n as int) =~= Seq::<Seq<char>>::empty());
    }
    PamFullmoonAction::Deny
}

/// A token sequence without any `action=...` token resolves to the default
/// policy `Deny`, whatever its other tokens hold.
pub proof fn lemma_no_action_token_defaults_to_deny(toks: Seq<Seq<char>>)
    requires
        forall|i: int| 0 <= i < toks.len() ==> !is_action_token(toks[i]),
    ensures
        resolved_policy(toks) == PamFullmoonAction::Deny,
    decreases toks.len(),
{
    if toks.len() > 0 {
        assert(forall|i: int| 0 <= i < toks.skip(1).len() ==> toks.skip(1)[i] == toks[i + 1]);
        lemma_no_action_token_defaults_to_deny(toks.skip(1));
    }
}

/// The first `action=...` token in the sequence decides the policy: `allow`
/// in any letter case resolves to `Allow`, and any other value to `Deny`.
pub proof fn lemma_first_action_token_decides(toks: Seq<Seq<char>>, i: int)
    requires
        0 <= i < toks.len(),
        is_action_token(toks[i]),
        forall|j: int| 0 <= j < i ==> !is_action_token(toks[j]),
    ensures
        resolved_policy(toks) == policy_of_value(action_value(toks[i])),
        eq_ignore_ascii_case(action_value(toks[i]), "allow"@) ==> resolved_policy(toks)
            == PamFullmoonAction::Allow,
        !eq_ignore_ascii_case(action_value(toks[i]), "allow"@) ==> resolved_policy(toks)
            == PamFullmoonAction::Deny,
    decreases i,
{
    if i > 0 {
        assert(forall|j: int| 0 <= j < toks.skip(1).len() ==> toks.skip(1)[j] == toks[j + 1]);
        lemma_first_action_token_decides(toks.skip(1), i - 1);
    }
}

} // verus!
