//! The shell's built-in command table.
use vstd::prelude::*;
use crate::command::{Param, ParamType};
use crate::registry::{CommandSpec, HandlerKind, Registry, RegistryError, reserved_name, valid_name};

verus! {

/// The name, parameter types and handler of the built-in command at position `i`.
pub open spec fn standard_command(i: int) -> (Seq<char>, Seq<ParamType>, HandlerKind) {
    if i == 0 {
        ("new"@, seq![ParamType::Text], HandlerKind::New)
    } else if i == 1 {
        ("echo"@, seq![ParamType::Text], HandlerKind::Echo)
    } else if i == 2 {
        ("date"@, seq![], HandlerKind::Date)
    } else if i == 3 {
        ("time"@, seq![], HandlerKind::Time)
    } else if i == 4 {
        ("unixtime"@, seq![], HandlerKind::UnixTime)
    } else if i == 5 {
        ("rand"@, seq![ParamType::Float, ParamType::Float], HandlerKind::Rand)
    } else if i == 6 {
        ("bc"@, seq![ParamType::Text], HandlerKind::Bc)
    } else if i == 7 {
        ("test[-f]"@, seq![ParamType::Path], HandlerKind::TestFile)
    } else if i == 8 {
        ("du"@, seq![ParamType::Path], HandlerKind::Du)
    } else if i == 9 {
        ("add"@, seq![ParamType::Integer, ParamType::Integer], HandlerKind::Add)
    } else if i == 10 {
        ("sub"@, seq![ParamType::Integer, ParamType::Integer], HandlerKind::Sub)
    } else if i == 11 {
        ("ok"@, seq![], HandlerKind::NoOp)
    } else if i == 12 {
        ("error"@, seq![ParamType::Text], HandlerKind::Error)
    } else if i == 13 {
        ("critical"@, seq![ParamType::Text], HandlerKind::Critical)
    } else if i == 14 {
        ("roulette"@, seq![], HandlerKind::Roulette)
    } else if i == 15 {
        ("csurename"@, seq![], HandlerKind::Csurename)
    } else if i == 16 {
        ("memdump"@, seq![], HandlerKind::Memdump)
    } else if i == 17 {
        ("version"@, seq![], HandlerKind::Version)
    } else if i == 18 {
        ("ls"@, seq![ParamType::Path], HandlerKind::Ls)
    } else if i == 19 {
        ("ipaddr"@, seq![ParamType::IpAddr], HandlerKind::IpAddr)
    } else if i == 20 {
        ("count"@, seq![ParamType::Integer, ParamType::Integer], HandlerKind::Count)
    } else if i == 21 {
        ("clear"@, seq![], HandlerKind::Clear)
    } else if i == 22 {
        ("say"@, seq![ParamType::Float], HandlerKind::Say)
    } else {
        ("outx"@, seq![], HandlerKind::Outx)
    }
}

/// The declared types of a parameter list.
pub open spec fn param_types(ps: Seq<Param>) -> Seq<ParamType> {
    ps.map_values(|p: Param| p.ty)
}

/// Whether `c` is the built-in command at position `i`.
pub open spec fn is_standard_command(c: CommandSpec, i: int) -> bool {
    c.name@ == standard_command(i).0 && param_types(c.params@) == standard_command(i).1 && c.handler
        == standard_command(i).2
}

/// A number that equal names share: their length and first two characters.
spec fn name_key(n: Seq<char>) -> int {
    n.len() * 1000000 + (n[0] as int) * 1000 + (n[1] as int)
}

/// `reg` holds the first `k` built-in commands, whose name keys lie in `keys`.
spec fn built_upto(reg: Registry, k: int, keys: Set<int>) -> bool {
    reg.wf() && reg.commands@.len() == k && (forall|i: int|
        0 <= i < k ==> is_standard_command(#[trigger] reg.commands@[i], i)) && (forall|i: int|
        0 <= i < k ==> keys.contains(name_key(#[trigger] reg.commands@[i].name@)))
}

fn add_standard(reg: &mut Registry, c: CommandSpec, Ghost(keys): Ghost<Set<int>>)
    requires
        built_upto(*old(reg), old(reg).commands@.len() as int, keys),
        is_standard_command(c, old(reg).commands@.len() as int),
        valid_name(c.name@),
        !reserved_name(c.name@),
        !keys.contains(name_key(c.name@)),
    ensures
        built_upto(
            *final(reg),
            (old(reg).commands@.len() + 1) as int,
            keys.insert(name_key(c.name@)),
        ),
{
    let ghost k = reg.commands@.len() as int;
    let ghost key = name_key(c.name@);
    proof {
        if reg.has_name(c.name@) {
            let i = choose|i: int| 0 <= i < reg.commands@.len() && #[trigger] reg.commands@[i].name@ == c.name@;
            assert(keys.contains(name_key(reg.commands@[i].name@)));
        }
    }
    let _ = reg.register(c);
    assert(reg.commands@[k] == c);
    assert(forall|i: int| 0 <= i < k ==> reg.commands@[i] == old(reg).commands@[i]);
}

fn no_params() -> (r: Vec<Param>)
    ensures
        param_types(r@) == Seq::<ParamType>::empty(),
{
    let r: Vec<Param> = Vec::new();
    assert(param_types(r@) =~= Seq::<ParamType>::empty());
    r
}

fn one_param(name: &str, ty: ParamType) -> (r: Vec<Param>)
    ensures
        param_types(r@) == seq![ty],
{
    let mut r: Vec<Param> = Vec::new();
    r.push(Param { name: name.to_owned(), ty });
    assert(param_types(r@) =~= seq![ty]);
    r
}

fn two_params(n1: &str, t1: ParamType, n2: &str, t2: ParamType) -> (r: Vec<Param>)
    ensures
        param_types(r@) == seq![t1, t2],
{
    let mut r: Vec<Param> = Vec::new();
    r.push(Param { name: n1.to_owned(), ty: t1 });
    r.push(Param { name: n2.to_owned(), ty: t2 });
    assert(param_types(r@) =~= seq![t1, t2]);
    r
}

fn command(name: &str, description: &str, params: Vec<Param>, handler: HandlerKind) -> (r: CommandSpec)
    ensures
        r.name@ == name@,
        r.description@ == description@,
        r.params == params,
        r.handler == handler,
{
    CommandSpec { name: name.to_owned(), description: description.to_owned(), params, handler }
}

fn add_group_0(reg: &mut Registry)
    requires
        built_upto(*old(reg), 0, Set::<int>::empty()),
    ensures
        built_upto(*final(reg), 6, Set::<int>::empty().insert(3110101).insert(4101099).insert(4100097).insert(4116105).insert(8117110).insert(4114097)),
{
    proof {
        reveal_strlit("help");
        reveal_strlit("quit");
        assert(name_key("help"@) == 4104101);
        assert(name_key("quit"@) == 4113117);
    }
    proof {
        reveal_strlit("new");
        assert(name_key("new"@) == 3110101);
        assert(valid_name("new"@));
    }
    add_standard(
        reg,
        command("new", "Enter new repl", one_param("name", ParamType::Text), HandlerKind::New),
        Ghost(Set::<int>::empty()),
    );
    proof {
        reveal_strlit("echo");
        assert(name_key("echo"@) == 4101099);
        assert(valid_name("echo"@));
    }
    add_standard(
        reg,
        command("echo", "Echoes back", one_param("name", ParamType::Text), HandlerKind::Echo),
        Ghost(Set::<int>::empty().insert(3110101)),
    );
    proof {
        reveal_strlit("date");
        assert(name_key("date"@) == 4100097);
        assert(valid_name("date"@));
    }
    add_standard(
        reg,
        command("date", "Echoes current date and time", no_params(), HandlerKind::Date),
        Ghost(Set::<int>::empty().insert(3110101).insert(4101099)),
    );
    proof {
        reveal_strlit("time");
        assert(name_key("time"@) == 4116105);
        assert(valid_name("time"@));
    }
    add_standard(
        reg,
        command("time", "Echoes current time", no_params(), HandlerKind::Time),
        Ghost(Set::<int>::empty().insert(3110101).insert(4101099).insert(4100097)),
    );
    proof {
        reveal_strlit("unixtime");
        assert(name_key("unixtime"@) == 8117110);
        assert(valid_name("unixtime"@));
    }
    add_standard(
        reg,
        command("unixtime", "Echoes elapsed seconds since UNIX epoch", no_params(), HandlerKind::UnixTime),
        Ghost(Set::<int>::empty().insert(3110101).insert(4101099).insert(4100097).insert(4116105)),
    );
    proof {
        reveal_strlit("rand");
        assert(name_key("rand"@) == 4114097);
        assert(valid_name("rand"@));
    }
    add_standard(
        reg,
        command("rand", "Echoes a random num between the two passed values", two_params("min", ParamType::Float, "max", ParamType::Float), HandlerKind::Rand),
        Ghost(Set::<int>::empty().insert(3110101).insert(4101099).insert(4100097).insert(4116105).insert(8117110)),
    );
}

fn add_group_1(reg: &mut Registry)
    requires
        built_upto(*old(reg), 6, Set::<int>::empty().insert(3110101).insert(4101099).insert(4100097).insert(4116105).insert(8117110).insert(4114097)),
    ensures
        built_upto(*final(reg), 12, Set::<int>::empty().insert(3110101).insert(4101099).insert(4100097).insert(4116105).insert(8117110).insert(4114097).insert(2098099).insert(8116101).insert(2100117).insert(3097100).insert(3115117).insert(2111107)),
{
    proof {
        reveal_strlit("help");
        reveal_strlit("quit");
        assert(name_key("help"@) == 4104101);
        assert(name_key("quit"@) == 4113117);
    }
    proof {
        reveal_strlit("bc");
        assert(name_key("bc"@) == 2098099);
        assert(valid_name("bc"@));
    }
    add_standard(
        reg,
        command("bc", "Basic calculator", one_param("expr", ParamType::Text), HandlerKind::Bc),
        Ghost(Set::<int>::empty().insert(3110101).insert(4101099).insert(4100097).insert(4116105).insert(8117110).insert(4114097)),
    );
    proof {
        reveal_strlit("test[-f]");
        assert(name_key("test[-f]"@) == 8116101);
        assert(valid_name("test[-f]"@));
    }
    add_standard(
        reg,
        command("test[-f]", "Test if arg is file or dir", one_param("arg", ParamType::Path), HandlerKind::TestFile),
        Ghost(Set::<int>::empty().insert(3110101).insert(4101099).insert(4100097).insert(4116105).insert(8117110).insert(4114097).insert(2098099)),
    );
    proof {
        reveal_strlit("du");
        assert(name_key("du"@) == 2100117);
        assert(valid_name("du"@));
    }
    add_standard(
        reg,
        command("du", "Shows file size", one_param("arg", ParamType::Path), HandlerKind::Du),
        Ghost(Set::<int>::empty().insert(3110101).insert(4101099).insert(4100097).insert(4116105).insert(8117110).insert(4114097).insert(2098099).insert(8116101)),
    );
    proof {
        reveal_strlit("add");
        assert(name_key("add"@) == 3097100);
        assert(valid_name("add"@));
    }
    add_standard(
        reg,
        command("add", "Add X to Y", two_params("X", ParamType::Integer, "Y", ParamType::Integer), HandlerKind::Add),
        Ghost(Set::<int>::empty().insert(3110101).insert(4101099).insert(4100097).insert(4116105).insert(8117110).insert(4114097).insert(2098099).insert(8116101).insert(2100117)),
    );
    proof {
        reveal_strlit("sub");
        assert(name_key("sub"@) == 3115117);
        assert(valid_name("sub"@));
    }
    add_standard(
        reg,
        command("sub", "Sub X from Y", two_params("X", ParamType::Integer, "Y", ParamType::Integer), HandlerKind::Sub),
        Ghost(Set::<int>::empty().insert(3110101).insert(4101099).insert(4100097).insert(4116105).insert(8117110).insert(4114097).insert(2098099).insert(8116101).insert(2100117).insert(3097100)),
    );
    proof {
        reveal_strlit("ok");
        assert(name_key("ok"@) == 2111107);
        assert(valid_name("ok"@));
    }
    add_standard(
        reg,
        command("ok", "Run a command that just succeeds", no_params(), HandlerKind::NoOp),
        Ghost(Set::<int>::empty().insert(3110101).insert(4101099).insert(4100097).insert(4116105).insert(8117110).insert(4114097).insert(2098099).insert(8116101).insert(2100117).insert(3097100).insert(3115117)),
    );
}

fn add_group_2(reg: &mut Registry)
    requires
        built_upto(*old(reg), 12, Set::<int>::empty().insert(3110101).insert(4101099).insert(4100097).insert(4116105).insert(8117110).insert(4114097).insert(2098099).insert(8116101).insert(2100117).insert(3097100).insert(3115117).insert(2111107)),
    ensures
        built_upto(*final(reg), 18, Set::<int>::empty().insert(3110101).insert(4101099).insert(4100097).insert(4116105).insert(8117110).insert(4114097).insert(2098099).insert(8116101).insert(2100117).insert(3097100).insert(3115117).insert(2111107).insert(5101114).insert(8099114).insert(8114111).insert(9099115).insert(7109101).insert(7118101)),
{
    proof {
        reveal_strlit("help");
        reveal_strlit("quit");
        assert(name_key("help"@) == 4104101);
        assert(name_key("quit"@) == 4113117);
    }
    proof {
        reveal_strlit("error");
        assert(name_key("error"@) == 5101114);
        assert(valid_name("error"@));
    }
    add_standard(
        reg,
        command("error", "Command with recoverable error handled by the REPL", one_param("text", ParamType::Text), HandlerKind::Error),
        Ghost(Set::<int>::empty().insert(3110101).insert(4101099).insert(4100097).insert(4116105).insert(8117110).insert(4114097).insert(2098099).insert(8116101).insert(2100117).insert(3097100).insert(3115117).insert(2111107)),
    );
    proof {
        reveal_strlit("critical");
        assert(name_key("critical"@) == 8099114);
        assert(valid_name("critical"@));
    }
    add_standard(
        reg,
        command("critical", "Command returns a critical error that must be handled outside of REPL", one_param("text", ParamType::Text), HandlerKind::Critical),
        Ghost(Set::<int>::empty().insert(3110101).insert(4101099).insert(4100097).insert(4116105).insert(8117110).insert(4114097).insert(2098099).insert(8116101).insert(2100117).insert(3097100).insert(3115117).insert(2111107).insert(5101114)),
    );
    proof {
        reveal_strlit("roulette");
        assert(name_key("roulette"@) == 8114111);
        assert(valid_name("roulette"@));
    }
    add_standard(
        reg,
        command("roulette", "Feeling lucky?", no_params(), HandlerKind::Roulette),
        Ghost(Set::<int>::empty().insert(3110101).insert(4101099).insert(4100097).insert(4116105).insert(8117110).insert(4114097).insert(2098099).insert(8116101).insert(2100117).insert(3097100).insert(3115117).insert(2111107).insert(5101114).insert(8099114)),
    );
    proof {
        reveal_strlit("csurename");
        assert(name_key("csurename"@) == 9099115);
        assert(valid_name("csurename"@));
    }
    add_standard(
        reg,
        command("csurename", "Convert lines to kebab case", no_params(), HandlerKind::Csurename),
        Ghost(Set::<int>::empty().insert(3110101).insert(4101099).insert(4100097).insert(4116105).insert(8117110).insert(4114097).insert(2098099).insert(8116101).insert(2100117).insert(3097100).insert(3115117).insert(2111107).insert(5101114).insert(8099114).insert(8114111)),
    );
    proof {
        reveal_strlit("memdump");
        assert(name_key("memdump"@) == 7109101);
        assert(valid_name("memdump"@));
    }
    add_standard(
        reg,
        command("memdump", "Display irpl_symbols", no_params(), HandlerKind::Memdump),
        Ghost(Set::<int>::empty().insert(3110101).insert(4101099).insert(4100097).insert(4116105).insert(8117110).insert(4114097).insert(2098099).insert(8116101).insert(2100117).insert(3097100).insert(3115117).insert(2111107).insert(5101114).insert(8099114).insert(8114111).insert(9099115)),
    );
    proof {
        reveal_strlit("version");
        assert(name_key("version"@) == 7118101);
        assert(valid_name("version"@));
    }
    add_standard(
        reg,
        command("version", "Display current irpl version", no_params(), HandlerKind::Version),
        Ghost(Set::<int>::empty().insert(3110101).insert(4101099).insert(4100097).insert(4116105).insert(8117110).insert(4114097).insert(2098099).insert(8116101).insert(2100117).insert(3097100).insert(3115117).insert(2111107).insert(5101114).insert(8099114).insert(8114111).insert(9099115).insert(7109101)),
    );
}

fn add_group_3(reg: &mut Registry)
    requires
        built_upto(*old(reg), 18, Set::<int>::empty().insert(3110101).insert(4101099).insert(4100097).insert(4116105).insert(8117110).insert(4114097).insert(2098099).insert(8116101).insert(2100117).insert(3097100).insert(3115117).insert(2111107).insert(5101114).insert(8099114).insert(8114111).insert(9099115).insert(7109101).insert(7118101)),
    ensures
        built_upto(*final(reg), 24, Set::<int>::empty().insert(3110101).insert(4101099).insert(4100097).insert(4116105).insert(8117110).insert(4114097).insert(2098099).insert(8116101).insert(2100117).insert(3097100).insert(3115117).insert(2111107).insert(5101114).insert(8099114).insert(8114111).insert(9099115).insert(7109101).insert(7118101).insert(2108115).insert(6105112).insert(5099111).insert(5099108).insert(3115097).insert(4111117)),
{
    proof {
        reveal_strlit("help");
        reveal_strlit("quit");
        assert(name_key("help"@) == 4104101);
        assert(name_key("quit"@) == 4113117);
    }
    proof {
        reveal_strlit("ls");
        assert(name_key("ls"@) == 2108115);
        assert(valid_name("ls"@));
    }
    add_standard(
        reg,
        command("ls", "List files in a directory", one_param("dir", ParamType::Path), HandlerKind::Ls),
        Ghost(Set::<int>::empty().insert(3110101).insert(4101099).insert(4100097).insert(4116105).insert(8117110).insert(4114097).insert(2098099).insert(8116101).insert(2100117).insert(3097100).insert(3115117).insert(2111107).insert(5101114).insert(8099114).insert(8114111).insert(9099115).insert(7109101).insert(7118101)),
    );
    proof {
        reveal_strlit("ipaddr");
        assert(name_key("ipaddr"@) == 6105112);
        assert(valid_name("ipaddr"@));
    }
    add_standard(
        reg,
        command("ipaddr", "Just parse and print the given IP address", one_param("ip", ParamType::IpAddr), HandlerKind::IpAddr),
        Ghost(Set::<int>::empty().insert(3110101).insert(4101099).insert(4100097).insert(4116105).insert(8117110).insert(4114097).insert(2098099).insert(8116101).insert(2100117).insert(3097100).insert(3115117).insert(2111107).insert(5101114).insert(8099114).insert(8114111).insert(9099115).insert(7109101).insert(7118101).insert(2108115)),
    );
    proof {
        reveal_strlit("count");
        assert(name_key("count"@) == 5099111);
        assert(valid_name("count"@));
    }
    add_standard(
        reg,
        command("count", "Count from X to Y", two_params("X", ParamType::Integer, "Y", ParamType::Integer), HandlerKind::Count),
        Ghost(Set::<int>::empty().insert(3110101).insert(4101099).insert(4100097).insert(4116105).insert(8117110).insert(4114097).insert(2098099).insert(8116101).insert(2100117).insert(3097100).insert(3115117).insert(2111107).insert(5101114).insert(8099114).insert(8114111).insert(9099115).insert(7109101).insert(7118101).insert(2108115).insert(6105112)),
    );
    proof {
        reveal_strlit("clear");
        assert(name_key("clear"@) == 5099108);
        assert(valid_name("clear"@));
    }
    add_standard(
        reg,
        command("clear", "Clear the screen", no_params(), HandlerKind::Clear),
        Ghost(Set::<int>::empty().insert(3110101).insert(4101099).insert(4100097).insert(4116105).insert(8117110).insert(4114097).insert(2098099).insert(8116101).insert(2100117).insert(3097100).insert(3115117).insert(2111107).insert(5101114).insert(8099114).insert(8114111).insert(9099115).insert(7109101).insert(7118101).insert(2108115).insert(6105112).insert(5099111)),
    );
    proof {
        reveal_strlit("say");
        assert(name_key("say"@) == 3115097);
        assert(valid_name("say"@));
    }
    add_standard(
        reg,
        command("say", "Say X", one_param("", ParamType::Float), HandlerKind::Say),
        Ghost(Set::<int>::empty().insert(3110101).insert(4101099).insert(4100097).insert(4116105).insert(8117110).insert(4114097).insert(2098099).insert(8116101).insert(2100117).insert(3097100).insert(3115117).insert(2111107).insert(5101114).insert(8099114).insert(8114111).insert(9099115).insert(7109101).insert(7118101).insert(2108115).insert(6105112).insert(5099111).insert(5099108)),
    );
    proof {
        reveal_strlit("outx");
        assert(name_key("outx"@) == 4111117);
        assert(valid_name("outx"@));
    }
    add_standard(
        reg,
        command("outx", "Use mutably outside var x. This command has a really long description so we need to wrap it somehow, it is interesting how actually the wrapping will be performed.", no_params(), HandlerKind::Outx),
        Ghost(Set::<int>::empty().insert(3110101).insert(4101099).insert(4100097).insert(4116105).insert(8117110).insert(4114097).insert(2098099).insert(8116101).insert(2100117).insert(3097100).insert(3115117).insert(2111107).insert(5101114).insert(8099114).insert(8114111).insert(9099115).insert(7109101).insert(7118101).insert(2108115).insert(6105112).insert(5099111).insert(5099108).insert(3115097)),
    );
}

/// The shell's commands, in the order they are listed in help. Their names
/// are distinct, so building the table always succeeds.
pub fn standard_registry() -> (r: Result<Registry, RegistryError>)
    ensures
        r matches Ok(reg) && reg.wf() && reg.commands@.len() == 24 && forall|i: int|
            0 <= i < 24 ==> is_standard_command(#[trigger] reg.commands@[i], i),
{
    let mut reg = Registry::new();
    add_group_0(&mut reg);
    add_group_1(&mut reg);
    add_group_2(&mut reg);
    add_group_3(&mut reg);
    Ok(reg)
}

} // verus!
