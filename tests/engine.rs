use irpl::builtins::standard_registry;
use irpl::command::{validate_args, ArgValue, Param, ParamType, TokenChecks, ValidationError};
use irpl::handlers::{add_line, count_line, file_kind_line, roulette_outcome, sub_line};
use irpl::registry::{CommandSpec, HandlerKind, Registry, RegistryError};
use irpl::session::{control, spawn_outcome, LoopControl, Outcome, Session, Step};
use irpl::startup::{check_args_count, may_throw};
use irpl::symbols::SymbolEnv;
use irpl::text::{format_int, format_u64, parse_i32, tokenize};

fn plain_checks(n: usize) -> Vec<TokenChecks> {
    vec![TokenChecks { float_ok: false, ip_ok: false }; n]
}

fn new_session(name: &str) -> Session {
    let mut load = SymbolEnv::new();
    load.insert("irpl_vers".to_string(), "0.1.0".to_string());
    Session::new(&name.to_string(), &load, 100, &"0.1.0".to_string())
}

fn run_line(s: &mut Session, reg: &Registry, line: &str) -> Step {
    let toks = tokenize(line);
    let checks = plain_checks(toks.len());
    s.step(reg, &toks, &checks)
}

fn reply(step: Step) -> (String, Outcome) {
    match step {
        Step::Done(r) => (r.output, r.outcome),
        other => panic!("expected a reply, got {:?}", other),
    }
}

// Runs a session over scripted lines, running each spawned child on the
// same lines before going on; returns how the session ended.
fn run_script(s: &mut Session, reg: &Registry, lines: &[&str], pos: &mut usize) -> Result<(), String> {
    while *pos < lines.len() {
        let line = lines[*pos];
        *pos += 1;
        let outcome = match run_line(s, reg, line) {
            Step::Blank | Step::Help(_) => Outcome::Completed,
            Step::Quit => return Ok(()),
            Step::Done(r) => r.outcome,
            Step::Spawn(name) => {
                let mut child = s.child(&name, 200);
                let end = run_script(&mut child, reg, lines, pos);
                spawn_outcome(&end)
            }
            Step::External(_, _) => Outcome::Completed,
        };
        if let LoopControl::Stop(m) = control(&outcome) {
            return Err(m);
        }
    }
    Ok(())
}

#[test]
fn tokenize_splits_on_whitespace() {
    assert_eq!(tokenize("  add 2\t3 "), vec!["add", "2", "3"]);
    assert!(tokenize("").is_empty());
    assert!(tokenize("   ").is_empty());
    assert_eq!(tokenize("echo"), vec!["echo"]);
}

#[test]
fn parse_i32_cases() {
    assert_eq!(parse_i32("42"), Some(42));
    assert_eq!(parse_i32("-17"), Some(-17));
    assert_eq!(parse_i32("+8"), Some(8));
    assert_eq!(parse_i32("2147483647"), Some(i32::MAX));
    assert_eq!(parse_i32("-2147483648"), Some(i32::MIN));
    assert_eq!(parse_i32("2147483648"), None);
    assert_eq!(parse_i32("99999999999999999999"), None);
    assert_eq!(parse_i32(""), None);
    assert_eq!(parse_i32("-"), None);
    assert_eq!(parse_i32("1a"), None);
    assert_eq!(parse_i32("1.5"), None);
}

#[test]
fn decimal_formatting() {
    assert_eq!(format_int(0), "0");
    assert_eq!(format_int(-305), "-305");
    assert_eq!(format_int(i64::MIN), i64::MIN.to_string());
    assert_eq!(format_int(i64::MAX), i64::MAX.to_string());
    assert_eq!(format_u64(u64::MAX), u64::MAX.to_string());
}

#[test]
fn add_two_and_three() {
    let reg = standard_registry().unwrap();
    let mut s = new_session("irpl ");
    let (out, outcome) = reply(run_line(&mut s, &reg, "add 2 3"));
    assert_eq!(out, "2 + 3 = 5\n");
    assert!(matches!(outcome, Outcome::Completed));
}

#[test]
fn sub_ten_and_four() {
    let reg = standard_registry().unwrap();
    let mut s = new_session("irpl ");
    let (out, outcome) = reply(run_line(&mut s, &reg, "sub 10 4"));
    assert_eq!(out, "10 - 4 = 6\n");
    assert!(matches!(outcome, Outcome::Completed));
}

#[test]
fn arithmetic_does_not_overflow() {
    assert_eq!(add_line(i32::MAX, 1), "2147483647 + 1 = 2147483648\n");
    assert_eq!(sub_line(i32::MIN, 1), "-2147483648 - 1 = -2147483649\n");
}

#[test]
fn error_is_recoverable() {
    let reg = standard_registry().unwrap();
    let mut s = new_session("irpl ");
    let (_, outcome) = reply(run_line(&mut s, &reg, "error boom"));
    match &outcome {
        Outcome::RecoverableFailure(m) => assert!(m.contains("boom")),
        other => panic!("{:?}", other),
    }
    assert!(matches!(control(&outcome), LoopControl::Continue));
    let mut pos = 0;
    assert_eq!(run_script(&mut s, &reg, &["error boom", "add 1 1"], &mut pos), Ok(()));
    assert_eq!(pos, 2);
}

#[test]
fn critical_ends_loop() {
    let reg = standard_registry().unwrap();
    let mut s = new_session("irpl ");
    let mut pos = 0;
    let end = run_script(&mut s, &reg, &["critical boom", "add 1 1"], &mut pos);
    assert_eq!(pos, 1);
    assert!(end.unwrap_err().contains("boom"));
}

#[test]
fn critical_cascades_through_nested_sessions() {
    let reg = standard_registry().unwrap();
    let mut s = new_session("irpl ");
    let mut pos = 0;
    let lines = ["new a", "new b", "error soft", "critical boom", "add 1 1", "add 2 2"];
    let end = run_script(&mut s, &reg, &lines, &mut pos);
    assert_eq!(end, Err("boom".to_string()));
    assert_eq!(pos, 4);
}

#[test]
fn nested_session_ending_normally_returns_to_parent() {
    let reg = standard_registry().unwrap();
    let mut s = new_session("irpl ");
    let mut pos = 0;
    let end = run_script(&mut s, &reg, &["new a", "quit", "critical late"], &mut pos);
    assert_eq!(end, Err("late".to_string()));
    assert_eq!(pos, 3);
}

#[test]
fn child_prompt_nests() {
    let reg = standard_registry().unwrap();
    let mut s = new_session("irpl ");
    assert_eq!(s.prompt, "[irpl ]> ");
    match run_line(&mut s, &reg, "new x") {
        Step::Spawn(name) => {
            assert_eq!(name, "[irpl ]> x");
            let c = s.child(&name, 5);
            assert_eq!(c.prompt, "[[irpl ]> x]> ");
        }
        other => panic!("{:?}", other),
    }
}

#[test]
fn snapshot_isolation() {
    let reg = standard_registry().unwrap();
    let mut parent = new_session("irpl ");
    parent.set_symbol("late".to_string(), "1".to_string());
    let mut child = parent.child(&"[irpl ]> c".to_string(), 7);
    let (dump, _) = reply(run_line(&mut child, &reg, "memdump"));
    assert_eq!(dump, "irpl_vers: \"0.1.0\"\nirpl_start_secs: \"7\"\n");
    assert!(!dump.contains("late"));
    child.set_symbol("mine".to_string(), "2".to_string());
    let (pdump, _) = reply(run_line(&mut parent, &reg, "memdump"));
    assert_eq!(pdump, "irpl_vers: \"0.1.0\"\nirpl_start_secs: \"100\"\nlate: \"1\"\n");
    assert!(!pdump.contains("mine"));
}

#[test]
fn unknown_command_is_recoverable() {
    let reg = standard_registry().unwrap();
    let mut s = new_session("irpl ");
    let (out, outcome) = reply(run_line(&mut s, &reg, "frobnicate 1"));
    assert_eq!(out, "");
    match outcome {
        Outcome::RecoverableFailure(m) => assert_eq!(m, "Command not found: frobnicate"),
        other => panic!("{:?}", other),
    }
    // exact match only: a prefix names nothing
    let (_, outcome) = reply(run_line(&mut s, &reg, "ad 1 2"));
    assert!(matches!(outcome, Outcome::RecoverableFailure(_)));
    let (_, outcome) = reply(run_line(&mut s, &reg, "ADD 1 2"));
    assert!(matches!(outcome, Outcome::RecoverableFailure(_)));
}

#[test]
fn arity_mismatch_is_validation_failure() {
    let reg = standard_registry().unwrap();
    let mut s = new_session("irpl ");
    for line in ["add 1", "add 1 2 3"] {
        let (_, outcome) = reply(run_line(&mut s, &reg, line));
        match outcome {
            Outcome::RecoverableFailure(m) => assert!(m.starts_with("wrong number of arguments")),
            other => panic!("{:?}", other),
        }
    }
    let (_, outcome) = reply(run_line(&mut s, &reg, "add 1"));
    match outcome {
        Outcome::RecoverableFailure(m) => assert_eq!(m, "wrong number of arguments: got 1, expected 2"),
        other => panic!("{:?}", other),
    }
}

#[test]
fn bad_token_is_named() {
    let reg = standard_registry().unwrap();
    let mut s = new_session("irpl ");
    let (_, outcome) = reply(run_line(&mut s, &reg, "add 1 zz"));
    match outcome {
        Outcome::RecoverableFailure(m) => {
            assert_eq!(m, "failed to parse argument value 'zz': expected i32")
        }
        other => panic!("{:?}", other),
    }
}

#[test]
fn validator_on_opaque_types() {
    let params = vec![
        Param { name: "min".to_string(), ty: ParamType::Float },
        Param { name: "ip".to_string(), ty: ParamType::IpAddr },
        Param { name: String::new(), ty: ParamType::Path },
    ];
    let args = vec!["1.5".to_string(), "10.0.0.1".to_string(), "/tmp".to_string()];
    let ok = vec![
        TokenChecks { float_ok: true, ip_ok: false },
        TokenChecks { float_ok: false, ip_ok: true },
        TokenChecks { float_ok: false, ip_ok: false },
    ];
    let vals = validate_args(&params, &args, &ok).unwrap();
    assert!(matches!(&vals[0], ArgValue::Float(t) if t == "1.5"));
    assert!(matches!(&vals[1], ArgValue::Ip(t) if t == "10.0.0.1"));
    assert!(matches!(&vals[2], ArgValue::Path(t) if t == "/tmp"));
    let bad = vec![
        TokenChecks { float_ok: true, ip_ok: false },
        TokenChecks { float_ok: false, ip_ok: false },
        TokenChecks { float_ok: false, ip_ok: false },
    ];
    match validate_args(&params, &args, &bad) {
        Err(ValidationError::BadValue { position, token, expected }) => {
            assert_eq!(position, 1);
            assert_eq!(token, "10.0.0.1");
            assert_eq!(expected, ParamType::IpAddr);
        }
        other => panic!("{:?}", other),
    }
    match validate_args(&params, &args[..2].to_vec(), &bad[..2].to_vec()) {
        Err(ValidationError::Arity { got, expected }) => assert_eq!((got, expected), (2, 3)),
        other => panic!("{:?}", other),
    }
}

#[test]
fn registered_name_runs_its_handler() {
    let reg = standard_registry().unwrap();
    let mut s = new_session("irpl ");
    let (out, _) = reply(run_line(&mut s, &reg, "echo hello"));
    assert_eq!(out, "hello\n");
    match run_line(&mut s, &reg, "date") {
        Step::External(k, v) => {
            assert_eq!(k, HandlerKind::Date);
            assert!(v.is_empty());
        }
        other => panic!("{:?}", other),
    }
    let (out, outcome) = reply(run_line(&mut s, &reg, "ok"));
    assert_eq!(out, "");
    assert!(matches!(outcome, Outcome::Completed));
}

#[test]
fn registry_rejects_bad_names() {
    let mut reg = Registry::new();
    let spec = |n: &str| CommandSpec {
        name: n.to_string(),
        description: "d".to_string(),
        params: vec![],
        handler: HandlerKind::NoOp,
    };
    assert!(reg.register(spec("a")).is_ok());
    assert!(matches!(reg.register(spec("a")), Err(RegistryError::DuplicateName(n)) if n == "a"));
    assert!(matches!(reg.register(spec("")), Err(RegistryError::InvalidName(_))));
    assert!(matches!(reg.register(spec("a b")), Err(RegistryError::InvalidName(_))));
    assert!(matches!(reg.register(spec("help")), Err(RegistryError::ReservedName(_))));
    assert!(matches!(reg.register(spec("quit")), Err(RegistryError::ReservedName(_))));
    assert!(reg.register(spec("b")).is_ok());
    assert_eq!(reg.commands.len(), 2);
    assert_eq!(reg.lookup(&"b".to_string()), Some(1));
    assert_eq!(reg.lookup(&"c".to_string()), None);
}

#[test]
fn standard_registry_builds() {
    let reg = standard_registry().unwrap();
    assert_eq!(reg.commands.len(), 24);
    assert_eq!(reg.commands[0].name, "new");
    assert_eq!(reg.signature(9), "add X:i32 Y:i32");
    assert_eq!(reg.signature(22), "say :f64");
    let names: Vec<&str> = reg.commands.iter().map(|c| c.name.as_str()).collect();
    assert_eq!(
        names,
        vec![
            "new", "echo", "date", "time", "unixtime", "rand", "bc", "test[-f]", "du", "add",
            "sub", "ok", "error", "critical", "roulette", "csurename", "memdump", "version", "ls",
            "ipaddr", "count", "clear", "say", "outx"
        ]
    );
    assert_eq!(reg.commands[9].handler, HandlerKind::Add);
    assert_eq!(reg.commands[13].handler, HandlerKind::Critical);
    assert_eq!(reg.commands[19].params[0].ty, ParamType::IpAddr);
}

#[test]
fn help_and_quit() {
    let mut reg = Registry::new();
    reg.register(CommandSpec {
        name: "add".to_string(),
        description: "Add X to Y".to_string(),
        params: vec![
            Param { name: "X".to_string(), ty: ParamType::Integer },
            Param { name: "Y".to_string(), ty: ParamType::Integer },
        ],
        handler: HandlerKind::Add,
    })
    .unwrap();
    let mut s = new_session("t");
    match run_line(&mut s, &reg, "help") {
        Step::Help(h) => assert_eq!(
            h,
            "Available commands:\n  add X:i32 Y:i32  Add X to Y\n  help  Show this help message\n  quit  Quit repl\n"
        ),
        other => panic!("{:?}", other),
    }
    assert!(matches!(run_line(&mut s, &reg, "quit"), Step::Quit));
    assert!(matches!(run_line(&mut s, &reg, "   "), Step::Blank));
}

#[test]
fn count_version_outx() {
    let reg = standard_registry().unwrap();
    let mut s = new_session("irpl ");
    assert_eq!(reply(run_line(&mut s, &reg, "count -1 2")).0, " -1 0 1 2\n");
    assert_eq!(reply(run_line(&mut s, &reg, "count 3 1")).0, "\n");
    assert_eq!(count_line(5, 5), " 5\n");
    assert_eq!(reply(run_line(&mut s, &reg, "version")).0, "irpl v0.1.0\n");
    assert_eq!(reply(run_line(&mut s, &reg, "outx")).0, "Out xx\n");
    assert_eq!(reply(run_line(&mut s, &reg, "outx")).0, "Out xxx\n");
}

#[test]
fn file_or_directory_by_slash() {
    assert_eq!(file_kind_line(&"a/b".to_string()), "a/b is a File\n");
    assert_eq!(file_kind_line(&"abc".to_string()), "abc is a Directory\n");
    let reg = standard_registry().unwrap();
    let mut s = new_session("irpl ");
    assert_eq!(reply(run_line(&mut s, &reg, "test[-f] /etc")).0, "/etc is a File\n");
}

#[test]
fn roulette_chambers() {
    assert!(matches!(roulette_outcome(0), Outcome::CriticalFailure(m) if m == "Bang!"));
    assert!(matches!(roulette_outcome(7), Outcome::RecoverableFailure(m) if m == "Blank cartridge?"));
    assert!(matches!(roulette_outcome(8), Outcome::RecoverableFailure(_)));
    assert!(matches!(roulette_outcome(9), Outcome::Completed));
    assert!(matches!(roulette_outcome(11), Outcome::Completed));
}

#[test]
fn spawn_outcome_and_control() {
    assert!(matches!(spawn_outcome(&Ok(())), Outcome::Completed));
    let o = spawn_outcome(&Err("x".to_string()));
    assert!(matches!(&o, Outcome::CriticalFailure(m) if m == "x"));
    assert!(matches!(control(&o), LoopControl::Stop(m) if m == "x"));
    assert!(matches!(control(&Outcome::RecoverableFailure("y".to_string())), LoopControl::Continue));
}

#[test]
fn symbol_insert_replaces() {
    let mut e = SymbolEnv::new();
    e.insert("a".to_string(), "1".to_string());
    e.insert("b".to_string(), "2".to_string());
    e.insert("a".to_string(), "3".to_string());
    assert_eq!(e.entries, vec![("a".to_string(), "3".to_string()), ("b".to_string(), "2".to_string())]);
    let c = e.snapshot();
    assert_eq!(c.entries, e.entries);
}

#[test]
fn startup_checks() {
    assert!(check_args_count(&vec!["irpl".to_string()]));
    assert!(!check_args_count(&vec!["irpl".to_string(), "x".to_string()]));
    let e = may_throw("boom".to_string()).unwrap_err();
    assert_eq!(e.kind(), std::io::ErrorKind::Other);
    assert_eq!(e.to_string(), "boom");
    let empty = may_throw(String::new()).unwrap_err();
    assert_eq!(empty.kind(), std::io::ErrorKind::Other);
    assert_eq!(empty.to_string(), "");
}
