//! Properties that hold across the registry, the validator and sessions.
use vstd::prelude::*;
use crate::command::{Param, TokenChecks, ValidationError, ArgValue, token_fits, validation_ok, validation_message};
use crate::registry::{Registry, reserved_name};
use crate::session::{Session, Severity, Step, first_with_name, invoke_post, is_reply, spawned_symbols, start_key, step_post};
use crate::symbols::has_key;

verus! {

/// In a registry without repeated names, a line whose first token is the
/// name of command `i` runs the handler of command `i` and no other, on its
/// arguments validated against that command's parameters.
pub proof fn lemma_dispatch_runs_named(
    reg: Registry,
    i: int,
    s0: Session,
    s1: Session,
    tokens: Seq<String>,
    checks: Seq<TokenChecks>,
    r: Step,
)
    requires
        reg.wf(),
        step_post(s0, s1, reg, tokens, checks, r),
        tokens.len() > 0,
        !reserved_name(tokens[0]@),
        0 <= i < reg.commands@.len(),
        reg.commands@[i].name@ == tokens[0]@,
    ensures
        exists|res: Result<Vec<ArgValue>, ValidationError>|
            validation_ok(reg.commands@[i].params@, tokens.skip(1), checks.skip(1), res) && match res {
                Ok(vals) => invoke_post(s0, s1, reg.commands@[i].handler, vals@, r),
                Err(e) => s1 == s0 && is_reply(r, seq![], Severity::Recoverable(validation_message(e))),
            },
{
    assert(reg.has_name(tokens[0]@));
    let (j, res) = choose|j: int, res: Result<Vec<ArgValue>, ValidationError>|
        first_with_name(reg, j, tokens[0]@) && validation_ok(
            reg.commands@[j].params@,
            tokens.skip(1),
            checks.skip(1),
            res,
        ) && match res {
            Ok(vals) => invoke_post(s0, s1, reg.commands@[j].handler, vals@, r),
            Err(e) => s1 == s0 && is_reply(r, seq![], Severity::Recoverable(validation_message(e))),
        };
    if j != i {
        if j < i {
            assert(reg.commands@[j].name@ != reg.commands@[i].name@);
        } else {
            assert(reg.commands@[i].name@ != reg.commands@[j].name@);
        }
    }
}

/// A line whose first token names no registered command runs no handler:
/// the session is left as it was, and the outcome is a recoverable failure.
pub proof fn lemma_unknown_name_runs_nothing(
    reg: Registry,
    s0: Session,
    s1: Session,
    tokens: Seq<String>,
    checks: Seq<TokenChecks>,
    r: Step,
)
    requires
        step_post(s0, s1, reg, tokens, checks, r),
        tokens.len() > 0,
        !reserved_name(tokens[0]@),
        !reg.has_name(tokens[0]@),
    ensures
        s1 == s0,
        !(r is Spawn),
        !(r is External),
        r matches Step::Done(rep) && rep.outcome@ is Recoverable,
{
}

/// Too few or too many tokens is a validation failure that reports both counts.
pub proof fn lemma_wrong_arity_rejected(
    params: Seq<Param>,
    args: Seq<String>,
    checks: Seq<TokenChecks>,
    res: Result<Vec<ArgValue>, ValidationError>,
)
    requires
        validation_ok(params, args, checks, res),
        args.len() != params.len(),
    ensures
        res matches Err(ValidationError::Arity { got, expected }) && got == args.len() && expected
            == params.len(),
{
}

/// With the right number of tokens, one that does not read as its declared
/// type makes validation fail, naming a token that does not read as its type.
pub proof fn lemma_bad_token_named(
    params: Seq<Param>,
    args: Seq<String>,
    checks: Seq<TokenChecks>,
    res: Result<Vec<ArgValue>, ValidationError>,
    i: int,
)
    requires
        validation_ok(params, args, checks, res),
        args.len() == params.len(),
        0 <= i < params.len(),
        !token_fits(params[i].ty, args[i]@, checks[i]),
    ensures
        res matches Err(ValidationError::BadValue { position, token, expected }) && position
            <= i && token@ == args[position as int]@ && expected == params[position as int].ty
            && !token_fits(expected, token@, checks[position as int]),
{
}

/// A child starts from its parent's construction-time symbols and its own
/// start time alone: a key absent from those, whatever the parent sets later,
/// is never among the child's symbols.
pub proof fn lemma_snapshot_isolation(initial: Seq<(Seq<char>, Seq<char>)>, k: Seq<char>, secs: nat)
    requires
        !has_key(initial, k),
        k != start_key(),
    ensures
        !has_key(spawned_symbols(initial, secs), k),
{
    let s = spawned_symbols(initial, secs);
    if has_key(initial, start_key()) {
        let i = choose|i: int| 0 <= i < initial.len() && (#[trigger] initial[i]).0 == start_key();
        assert(forall|j: int| 0 <= j < s.len() ==> (#[trigger] s[j]).0 == if j == i { start_key() } else { initial[j].0 });
    } else {
        assert(forall|j: int| 0 <= j < initial.len() ==> (#[trigger] s[j]) == initial[j]);
    }
}

} // verus!
