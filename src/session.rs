//! Sessions: one read-dispatch loop each, with its prompt, symbols and
//! the rules that decide whether a failure ends the loop.
use vstd::prelude::*;
use crate::command::{
    ArgValue, TokenChecks, ValidationError, validate_args, validation_message, validation_ok,
};
use crate::handlers::{
    add_line, add_text, count_items, count_line, file_kind_line, file_kind_text, sub_line,
    sub_text,
};
use crate::registry::{HandlerKind, Registry, help_spec};
use crate::symbols::{SymbolEnv, env_insert, keys_unique};
use crate::text::{dec_nat, format_u64};

verus! {

/// How one command invocation ended.
#[derive(Clone, Debug)]
pub enum Outcome {
    /// The loop goes on.
    Completed,
    /// Reported; the loop goes on.
    RecoverableFailure(String),
    /// The loop ends and hands this error to its caller.
    CriticalFailure(String),
}

/// The mathematical form of an `Outcome`.
pub enum Severity {
    Completed,
    Recoverable(Seq<char>),
    Critical(Seq<char>),
}

impl View for Outcome {
    type V = Severity;

    open spec fn view(&self) -> Severity {
        match self {
            Outcome::Completed => Severity::Completed,
            Outcome::RecoverableFailure(m) => Severity::Recoverable(m@),
            Outcome::CriticalFailure(m) => Severity::Critical(m@),
        }
    }
}

/// Whether the loop goes on after a command.
#[derive(Clone, Debug)]
pub enum LoopControl {
    Continue,
    /// The loop ends with this error.
    Stop(String),
}

/// The error with which a loop stops after an outcome, if it stops.
pub open spec fn stop_of(s: Severity) -> Option<Seq<char>> {
    match s {
        Severity::Critical(m) => Some(m),
        _ => None,
    }
}

/// The outcome of a spawn command whose child session ended with `child`
/// (`None` for a normal end, `Some(m)` for a critical error `m`).
pub open spec fn spawn_severity(child: Option<Seq<char>>) -> Severity {
    match child {
        None => Severity::Completed,
        Some(m) => Severity::Critical(m),
    }
}

/// How the outermost of `depth + 1` nested sessions ends when the innermost
/// one sees an outcome `inner` (`None`: it goes on).
pub open spec fn nested_stop(depth: nat, inner: Severity) -> Option<Seq<char>>
    decreases depth,
{
    if depth == 0 {
        stop_of(inner)
    } else {
        stop_of(spawn_severity(nested_stop((depth - 1) as nat, inner)))
    }
}

/// Decides whether the loop continues: only a critical failure ends it.
pub fn control(o: &Outcome) -> (r: LoopControl)
    ensures
        stop_of(o@) is None <==> r is Continue,
        r matches LoopControl::Stop(m) ==> stop_of(o@) == Some(m@),
{
    match o {
        Outcome::CriticalFailure(m) => LoopControl::Stop(m.clone()),
        _ => LoopControl::Continue,
    }
}

/// The outcome of a spawn command, given how its child session ended: a
/// critical error of the child is a critical error of the spawn command.
pub fn spawn_outcome(child_end: &Result<(), String>) -> (r: Outcome)
    ensures
        r@ == spawn_severity(
            match child_end {
                Ok(_) => None,
                Err(m) => Some(m@),
            },
        ),
{
    match child_end {
        Ok(_) => Outcome::Completed,
        Err(m) => Outcome::CriticalFailure(m.clone()),
    }
}

/// A critical failure in the innermost of any number of nested sessions
/// ends every enclosing session, and the outermost caller receives it.
pub proof fn lemma_critical_cascades(m: Seq<char>, depth: nat)
    ensures
        nested_stop(depth, Severity::Critical(m)) == Some(m),
    decreases depth,
{
    if depth > 0 {
        lemma_critical_cascades(m, (depth - 1) as nat);
    }
}

/// A recoverable failure in a nested session never ends any session.
pub proof fn lemma_recoverable_contained(m: Seq<char>, depth: nat)
    ensures
        nested_stop(depth, Severity::Recoverable(m)) is None,
    decreases depth,
{
    if depth > 0 {
        lemma_recoverable_contained(m, (depth - 1) as nat);
    }
}


/// What a command printed and how it ended.
#[derive(Clone, Debug)]
pub struct Reply {
    pub output: String,
    pub outcome: Outcome,
}

/// What a session does with one line.
#[derive(Debug)]
pub enum Step {
    /// Nothing: the line was blank.
    Blank,
    /// Show this help text.
    Help(String),
    /// End the loop normally.
    Quit,
    /// The command ran here; show its output and act on its outcome.
    Done(Reply),
    /// Run a child session under this name to its end, then take
    /// `spawn_outcome` of how it ended as the command's outcome.
    Spawn(String),
    /// A command whose work lies outside the library, with its validated arguments.
    External(HandlerKind, Vec<ArgValue>),
}

/// The key under which a session records when it started.
pub open spec fn start_key() -> Seq<char> {
    "irpl_start_secs"@
}

/// The prompt of a session called `name`.
pub open spec fn prompt_of(name: Seq<char>) -> Seq<char> {
    "["@ + name + "]> "@
}

/// The symbols of a session built from `load` at `secs` seconds.
pub open spec fn spawned_symbols(load: Seq<(Seq<char>, Seq<char>)>, secs: nat) -> Seq<
    (Seq<char>, Seq<char>),
> {
    env_insert(load, start_key(), dec_nat(secs))
}

/// The introspection listing of symbols: `key: "value"`, one per line.
pub open spec fn memdump_text(s: Seq<(Seq<char>, Seq<char>)>) -> Seq<char>
    decreases s.len(),
{
    if s.len() == 0 {
        seq![]
    } else {
        memdump_text(s.drop_last()) + s.last().0 + ": \""@ + s.last().1 + "\"\n"@
    }
}

/// One running read-dispatch loop.
#[derive(Debug)]
pub struct Session {
    /// The prompt, `[name]> `.
    pub prompt: String,
    /// The symbols the session was built from; children start from these.
    pub initial: SymbolEnv,
    /// The session's own symbols.
    pub symbols: SymbolEnv,
    /// Whether command names are offered as hints while typing.
    pub hints: bool,
    /// The text that `outx` grows.
    pub outside_x: String,
    /// The version that `version` shows.
    pub version: String,
}

/// A reply with this output and outcome.
pub open spec fn is_reply(r: Step, out: Seq<char>, sev: Severity) -> bool {
    r matches Step::Done(rep) && rep.output@ == out && rep.outcome@ == sev
}

/// The text of a text-like argument.
pub open spec fn text_of(v: ArgValue) -> Option<Seq<char>> {
    match v {
        ArgValue::Text(t) => Some(t@),
        ArgValue::Path(t) => Some(t@),
        _ => None,
    }
}

/// The value of an integer argument.
pub open spec fn int_of(v: ArgValue) -> Option<int> {
    match v {
        ArgValue::Integer(n) => Some(n as int),
        _ => None,
    }
}

/// Whether `vals` are one text-like argument.
pub open spec fn one_text(vals: Seq<ArgValue>) -> bool {
    vals.len() == 1 && text_of(vals[0]) is Some
}

/// Whether `vals` are two integer arguments.
pub open spec fn two_ints(vals: Seq<ArgValue>) -> bool {
    vals.len() == 2 && int_of(vals[0]) is Some && int_of(vals[1]) is Some
}

/// The message for arguments that do not fit their handler.
pub open spec fn misfit_message() -> Seq<char> {
    "arguments do not fit the command's handler"@
}

/// What running handler `kind` on `vals` does, from state `s0` to `s1`, giving `r`.
pub open spec fn invoke_post(s0: Session, s1: Session, kind: HandlerKind, vals: Seq<ArgValue>, r: Step) -> bool {
    let misfit = s1 == s0 && is_reply(r, seq![], Severity::Recoverable(misfit_message()));
    match kind {
        HandlerKind::Echo => if one_text(vals) {
            s1 == s0 && is_reply(r, text_of(vals[0])->0 + "\n"@, Severity::Completed)
        } else {
            misfit
        },
        HandlerKind::Add => if two_ints(vals) {
            s1 == s0 && is_reply(r, add_text(int_of(vals[0])->0, int_of(vals[1])->0), Severity::Completed)
        } else {
            misfit
        },
        HandlerKind::Sub => if two_ints(vals) {
            s1 == s0 && is_reply(r, sub_text(int_of(vals[0])->0, int_of(vals[1])->0), Severity::Completed)
        } else {
            misfit
        },
        HandlerKind::Count => if two_ints(vals) {
            s1 == s0 && is_reply(
                r,
                count_items(int_of(vals[0])->0, int_of(vals[1])->0) + "\n"@,
                Severity::Completed,
            )
        } else {
            misfit
        },
        HandlerKind::NoOp => s1 == s0 && is_reply(r, seq![], Severity::Completed),
        HandlerKind::Error => if one_text(vals) {
            s1 == s0 && is_reply(r, seq![], Severity::Recoverable(text_of(vals[0])->0))
        } else {
            misfit
        },
        HandlerKind::Critical => if one_text(vals) {
            s1 == s0 && is_reply(r, seq![], Severity::Critical(text_of(vals[0])->0))
        } else {
            misfit
        },
        HandlerKind::Memdump => s1 == s0 && is_reply(r, memdump_text(s0.symbols@), Severity::Completed),
        HandlerKind::Version => s1 == s0 && is_reply(r, "irpl v"@ + s0.version@ + "\n"@, Severity::Completed),
        HandlerKind::Outx => s1.prompt == s0.prompt && s1.initial == s0.initial && s1.symbols
            == s0.symbols && s1.hints == s0.hints && s1.version == s0.version && s1.outside_x@
            == s0.outside_x@ + "x"@ && is_reply(r, s1.outside_x@ + "\n"@, Severity::Completed),
        HandlerKind::TestFile => if one_text(vals) {
            s1 == s0 && is_reply(r, file_kind_text(text_of(vals[0])->0), Severity::Completed)
        } else {
            misfit
        },
        HandlerKind::New => if one_text(vals) {
            s1 == s0 && (r matches Step::Spawn(n) && n@ == s0.prompt@ + text_of(vals[0])->0)
        } else {
            misfit
        },
        _ => s1 == s0 && (r matches Step::External(k, v) && k == kind && v@ == vals),
    }
}

/// The message for a name that no command has.
pub open spec fn unknown_message(name: Seq<char>) -> Seq<char> {
    "Command not found: "@ + name
}

impl Session {
    /// Whether the symbol environments keep their keys unique.
    pub open spec fn wf(&self) -> bool {
        keys_unique(self.initial@) && keys_unique(self.symbols@)
    }

    /// A session called `name`, built from the symbols `load` at `start_secs`
    /// seconds after the epoch.
    pub fn new(name: &String, load: &SymbolEnv, start_secs: u64, version: &String) -> (r: Session)
        requires
            keys_unique(load@),
        ensures
            r.wf(),
            r.prompt@ == prompt_of(name@),
            r.initial@ == load@,
            r.symbols@ == spawned_symbols(load@, start_secs as nat),
            r.hints,
            r.outside_x@ == "Out x"@,
            r.version@ == version@,
    {
        let mut symbols = load.snapshot();
        let secs = format_u64(start_secs);
        symbols.insert("irpl_start_secs".to_owned(), secs);
        Session {
            prompt: "[".to_owned().concat(name.as_str()).concat("]> "),
            initial: load.snapshot(),
            symbols,
            hints: true,
            outside_x: "Out x".to_owned(),
            version: version.clone(),
        }
    }

    /// The child session that a spawn step names, started at `start_secs`:
    /// it starts from this session's initial symbols, not from what this
    /// session holds now.
    pub fn child(&self, name: &String, start_secs: u64) -> (r: Session)
        requires
            self.wf(),
        ensures
            r.wf(),
            r.prompt@ == prompt_of(name@),
            r.initial@ == self.initial@,
            r.symbols@ == spawned_symbols(self.initial@, start_secs as nat),
            r.hints,
            r.outside_x@ == "Out x"@,
            r.version@ == self.version@,
    {
        Session::new(name, &self.initial, start_secs, &self.version)
    }

    /// Binds `k` to `v` in this session's own symbols.
    pub fn set_symbol(&mut self, k: String, v: String)
        requires
            old(self).wf(),
        ensures
            final(self).wf(),
            final(self).symbols@ == env_insert(old(self).symbols@, k@, v@),
            final(self).initial == old(self).initial,
            final(self).prompt == old(self).prompt,
            final(self).hints == old(self).hints,
            final(self).outside_x == old(self).outside_x,
            final(self).version == old(self).version,
    {
        self.symbols.insert(k, v);
    }

    fn memdump(&self) -> (r: String)
        ensures
            r@ == memdump_text(self.symbols@),
    {
        let mut out = String::new();
        let mut i: usize = 0;
        while i < self.symbols.entries.len()
            invariant
                i <= self.symbols@.len(),
                out@ == memdump_text(self.symbols@.take(i as int)),
            decreases self.symbols@.len() - i,
        {
            let e = &self.symbols.entries[i];
            out = out.concat(e.0.as_str()).concat(": \"").concat(e.1.as_str()).concat("\"\n");
            assert(self.symbols@.take(i + 1).drop_last() == self.symbols@.take(i as int));
            i = i + 1;
        }
        assert(self.symbols@.take(self.symbols@.len() as int) == self.symbols@);
        out
    }

    /// Runs the handler `kind` on validated arguments.
    pub fn invoke(&mut self, kind: HandlerKind, vals: Vec<ArgValue>) -> (r: Step)
        ensures
            invoke_post(*old(self), *final(self), kind, vals@, r),
    {
        let misfit = Step::Done(
            Reply {
                output: String::new(),
                outcome: Outcome::RecoverableFailure(
                    "arguments do not fit the command's handler".to_owned(),
                ),
            },
        );
        match kind {
            HandlerKind::Echo => match first_text(&vals) {
                Some(t) => done(t.clone().concat("\n"), Outcome::Completed),
                None => misfit,
            },
            HandlerKind::Add => match two_int_args(&vals) {
                Some((x, y)) => done(add_line(x, y), Outcome::Completed),
                None => misfit,
            },
            HandlerKind::Sub => match two_int_args(&vals) {
                Some((x, y)) => done(sub_line(x, y), Outcome::Completed),
                None => misfit,
            },
            HandlerKind::Count => match two_int_args(&vals) {
                Some((x, y)) => done(count_line(x, y), Outcome::Completed),
                None => misfit,
            },
            HandlerKind::NoOp => done(String::new(), Outcome::Completed),
            HandlerKind::Error => match first_text(&vals) {
                Some(t) => done(String::new(), Outcome::RecoverableFailure(t.clone())),
                None => misfit,
            },
            HandlerKind::Critical => match first_text(&vals) {
                Some(t) => done(String::new(), Outcome::CriticalFailure(t.clone())),
                None => misfit,
            },
            HandlerKind::Memdump => done(self.memdump(), Outcome::Completed),
            HandlerKind::Version => done(
                "irpl v".to_owned().concat(self.version.as_str()).concat("\n"),
                Outcome::Completed,
            ),
            HandlerKind::Outx => {
                let x = self.outside_x.clone().concat("x");
                self.outside_x = x;
                done(self.outside_x.clone().concat("\n"), Outcome::Completed)
            },
            HandlerKind::TestFile => match first_text(&vals) {
                Some(t) => done(file_kind_line(t), Outcome::Completed),
                None => misfit,
            },
            HandlerKind::New => match first_text(&vals) {
                Some(t) => Step::Spawn(self.prompt.clone().concat(t.as_str())),
                None => misfit,
            },
            _ => Step::External(kind, vals),
        }
    }
}

/// Whether `i` is the first position of a command called `name`.
pub open spec fn first_with_name(reg: Registry, i: int, name: Seq<char>) -> bool {
    0 <= i < reg.commands@.len() && reg.commands@[i].name@ == name && forall|j: int|
        0 <= j < i ==> #[trigger] reg.commands@[j].name@ != name
}

/// What dispatching `tokens` through `reg` does, from `s0` to `s1`, giving `r`.
pub open spec fn step_post(
    s0: Session,
    s1: Session,
    reg: Registry,
    tokens: Seq<String>,
    checks: Seq<TokenChecks>,
    r: Step,
) -> bool {
    if tokens.len() == 0 {
        s1 == s0 && r is Blank
    } else if tokens[0]@ == "help"@ {
        s1 == s0 && (r matches Step::Help(h) && h@ == help_spec(reg.commands@))
    } else if tokens[0]@ == "quit"@ {
        s1 == s0 && r is Quit
    } else if !reg.has_name(tokens[0]@) {
        s1 == s0 && is_reply(r, seq![], Severity::Recoverable(unknown_message(tokens[0]@)))
    } else {
        exists|i: int, res: Result<Vec<ArgValue>, ValidationError>|
            first_with_name(reg, i, tokens[0]@) && validation_ok(
                reg.commands@[i].params@,
                tokens.skip(1),
                checks.skip(1),
                res,
            ) && match res {
                Ok(vals) => invoke_post(s0, s1, reg.commands@[i].handler, vals@, r),
                Err(e) => s1 == s0 && is_reply(r, seq![], Severity::Recoverable(validation_message(e))),
            }
    }
}

impl Session {
    /// Dispatches one tokenized line: the session's own commands `help` and
    /// `quit`, else the registered command named by the first token, exactly,
    /// with the other tokens validated against its parameters.
    pub fn step(&mut self, reg: &Registry, tokens: &Vec<String>, checks: &Vec<TokenChecks>) -> (r: Step)
        requires
            checks@.len() == tokens@.len(),
        ensures
            step_post(*old(self), *final(self), *reg, tokens@, checks@, r),
    {
        if tokens.len() == 0 {
            return Step::Blank;
        }
        let name = &tokens[0];
        let help = "help".to_owned();
        let quit = "quit".to_owned();
        if *name == help {
            return Step::Help(reg.help_text());
        }
        if *name == quit {
            return Step::Quit;
        }
        match reg.lookup(name) {
            None => done(
                String::new(),
                Outcome::RecoverableFailure("Command not found: ".to_owned().concat(name.as_str())),
            ),
            Some(i) => {
                let args = tail_strings(tokens);
                let arg_checks = tail_checks(checks);
                assert(args@ =~= tokens@.skip(1));
                assert(arg_checks@ =~= checks@.skip(1));
                let res = validate_args(&reg.commands[i].params, &args, &arg_checks);
                match res {
                    Ok(vals) => {
                        let r = self.invoke(reg.commands[i].handler, vals);
                        assert(first_with_name(*reg, i as int, tokens@[0]@));
                        r
                    },
                    Err(e) => {
                        let m = e.message();
                        let r = done(String::new(), Outcome::RecoverableFailure(m));
                        assert(first_with_name(*reg, i as int, tokens@[0]@));
                        r
                    },
                }
            },
        }
    }
}

fn tail_strings(v: &Vec<String>) -> (r: Vec<String>)
    requires
        v@.len() > 0,
    ensures
        r@ == v@.skip(1),
{
    let mut out: Vec<String> = Vec::new();
    let mut i: usize = 1;
    while i < v.len()
        invariant
            1 <= i <= v@.len(),
            out@ == v@.subrange(1, i as int),
        decreases v@.len() - i,
    {
        out.push(v[i].clone());
        assert(out@ =~= v@.subrange(1, i + 1));
        i = i + 1;
    }
    assert(out@ =~= v@.skip(1));
    out
}

fn tail_checks(v: &Vec<TokenChecks>) -> (r: Vec<TokenChecks>)
    requires
        v@.len() > 0,
    ensures
        r@ == v@.skip(1),
{
    let mut out: Vec<TokenChecks> = Vec::new();
    let mut i: usize = 1;
    while i < v.len()
        invariant
            1 <= i <= v@.len(),
            out@ == v@.subrange(1, i as int),
        decreases v@.len() - i,
    {
        out.push(v[i]);
        assert(out@ =~= v@.subrange(1, i + 1));
        i = i + 1;
    }
    assert(out@ =~= v@.skip(1));
    out
}

fn done(output: String, outcome: Outcome) -> (r: Step)
    ensures
        r matches Step::Done(rep) && rep.output == output && rep.outcome == outcome,
{
    Step::Done(Reply { output, outcome })
}

fn first_text(vals: &Vec<ArgValue>) -> (r: Option<&String>)
    ensures
        one_text(vals@) <==> r is Some,
        r matches Some(t) ==> text_of(vals@[0]) == Some(t@),
{
    if vals.len() != 1 {
        return None;
    }
    match &vals[0] {
        ArgValue::Text(t) => Some(t),
        ArgValue::Path(t) => Some(t),
        _ => None,
    }
}

fn two_int_args(vals: &Vec<ArgValue>) -> (r: Option<(i32, i32)>)
    ensures
        two_ints(vals@) <==> r is Some,
        r matches Some((x, y)) ==> int_of(vals@[0]) == Some(x as int) && int_of(vals@[1]) == Some(
            y as int,
        ),
{
    if vals.len() != 2 {
        return None;
    }
    match (&vals[0], &vals[1]) {
        (ArgValue::Integer(x), ArgValue::Integer(y)) => Some((*x, *y)),
        _ => None,
    }
}

} // verus!
