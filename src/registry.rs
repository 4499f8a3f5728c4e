//! The command registry: an ordered, name-unique table of commands.
use vstd::prelude::*;
use crate::command::{Param, type_label};
use crate::text::is_space;

verus! {

/// Which handler a command runs.
#[derive(Clone, Copy, Debug, PartialEq, Eq, Structural)]
pub enum HandlerKind {
    New,
    Echo,
    Date,
    Time,
    UnixTime,
    Rand,
    Bc,
    TestFile,
    Du,
    Add,
    Sub,
    NoOp,
    Error,
    Critical,
    Roulette,
    Csurename,
    Memdump,
    Version,
    Ls,
    IpAddr,
    Count,
    Clear,
    Say,
    Outx,
}

/// A registered command: its name, help text, parameters and handler.
#[derive(Clone, Debug)]
pub struct CommandSpec {
    pub name: String,
    pub description: String,
    pub params: Vec<Param>,
    pub handler: HandlerKind,
}

/// Why a command could not be registered.
#[derive(Clone, Debug)]
pub enum RegistryError {
    /// A command of that name is already registered.
    DuplicateName(String),
    /// The name is empty or holds whitespace, so no line could call it.
    InvalidName(String),
    /// The name is one that sessions answer themselves.
    ReservedName(String),
}

/// Whether a line could name a command called `n`.
pub open spec fn valid_name(n: Seq<char>) -> bool {
    n.len() > 0 && forall|i: int| 0 <= i < n.len() ==> !is_space(#[trigger] n[i])
}

/// The names that sessions answer themselves.
pub open spec fn reserved_name(n: Seq<char>) -> bool {
    n == "help"@ || n == "quit"@
}

/// The names of a sequence of commands.
pub open spec fn names_of(cmds: Seq<CommandSpec>) -> Seq<Seq<char>> {
    cmds.map_values(|c: CommandSpec| c.name@)
}

/// An ordered collection of commands.
pub struct Registry {
    pub commands: Vec<CommandSpec>,
}

impl Registry {
    /// No two commands share a name.
    pub open spec fn wf(&self) -> bool {
        forall|i: int, j: int|
            0 <= i < j < self.commands@.len() ==> #[trigger] self.commands@[i].name@
                != #[trigger] self.commands@[j].name@
    }

    /// Whether a command called `n` is registered.
    pub open spec fn has_name(&self, n: Seq<char>) -> bool {
        exists|i: int| 0 <= i < self.commands@.len() && #[trigger] self.commands@[i].name@ == n
    }

    /// An empty registry.
    pub fn new() -> (r: Registry)
        ensures
            r.commands@.len() == 0,
            r.wf(),
    {
        Registry { commands: Vec::new() }
    }

    /// The position of the command called `name`, matched exactly.
    pub fn lookup(&self, name: &String) -> (r: Option<usize>)
        ensures
            r matches Some(i) ==> i < self.commands@.len() && self.commands@[i as int].name@
                == name@ && forall|j: int| 0 <= j < i ==> #[trigger] self.commands@[j].name@ != name@,
            r is None <==> !self.has_name(name@),
    {
        let mut i: usize = 0;
        while i < self.commands.len()
            invariant
                i <= self.commands@.len(),
                forall|j: int| 0 <= j < i ==> #[trigger] self.commands@[j].name@ != name@,
            decreases self.commands@.len() - i,
        {
            if self.commands[i].name == *name {
                return Some(i);
            }
            i = i + 1;
        }
        None
    }

    /// Adds a command at the end, unless its name is unusable or taken.
    pub fn register(&mut self, spec: CommandSpec) -> (r: Result<(), RegistryError>)
        requires
            old(self).wf(),
        ensures
            final(self).wf(),
            !valid_name(spec.name@) ==> (r matches Err(RegistryError::InvalidName(n)) && n@ == spec.name@),
            valid_name(spec.name@) && reserved_name(spec.name@) ==> (r matches Err(
                RegistryError::ReservedName(n),
            ) && n@ == spec.name@),
            valid_name(spec.name@) && !reserved_name(spec.name@) && old(self).has_name(spec.name@)
                ==> (r matches Err(RegistryError::DuplicateName(n)) && n@ == spec.name@),
            r is Ok <==> valid_name(spec.name@) && !reserved_name(spec.name@) && !old(
                self,
            ).has_name(spec.name@),
            r is Ok ==> final(self).commands@ == old(self).commands@.push(spec),
            r is Err ==> final(self).commands@ == old(self).commands@,
    {
        if !name_is_valid(&spec.name) {
            return Err(RegistryError::InvalidName(spec.name));
        }
        let help = "help".to_owned();
        let quit = "quit".to_owned();
        if spec.name == help || spec.name == quit {
            return Err(RegistryError::ReservedName(spec.name));
        }
        match self.lookup(&spec.name) {
            Some(_) => Err(RegistryError::DuplicateName(spec.name)),
            None => {
                self.commands.push(spec);
                Ok(())
            },
        }
    }
}

/// The signature of a parameter list: ` name:Type` for each parameter.
pub open spec fn params_text(ps: Seq<Param>) -> Seq<char>
    decreases ps.len(),
{
    if ps.len() == 0 {
        seq![]
    } else {
        params_text(ps.drop_last()) + " "@ + ps.last().name@ + ":"@ + type_label(ps.last().ty)
    }
}

/// One help line per command, in registration order, then the session's own commands.
pub open spec fn help_lines(cmds: Seq<CommandSpec>) -> Seq<char>
    decreases cmds.len(),
{
    if cmds.len() == 0 {
        seq![]
    } else {
        help_lines(cmds.drop_last()) + "  "@ + cmds.last().name@ + params_text(cmds.last().params@)
            + "  "@ + cmds.last().description@ + "\n"@
    }
}

/// The whole help text of a registry.
pub open spec fn help_spec(cmds: Seq<CommandSpec>) -> Seq<char> {
    "Available commands:\n"@ + help_lines(cmds) + "  help  Show this help message\n  quit  Quit repl\n"@
}

fn params_signature(ps: &Vec<Param>) -> (r: String)
    ensures
        r@ == params_text(ps@),
{
    let mut out = String::new();
    let mut i: usize = 0;
    while i < ps.len()
        invariant
            i <= ps@.len(),
            out@ == params_text(ps@.take(i as int)),
        decreases ps@.len() - i,
    {
        let l = ps[i].ty.label();
        out = out.concat(" ").concat(ps[i].name.as_str()).concat(":").concat(l.as_str());
        assert(ps@.take(i + 1).drop_last() == ps@.take(i as int));
        i = i + 1;
    }
    assert(ps@.take(ps@.len() as int) == ps@);
    out
}

impl Registry {
    /// The signature of the command at `i`: its name, then ` name:Type` per parameter.
    pub fn signature(&self, i: usize) -> (r: String)
        requires
            i < self.commands@.len(),
        ensures
            r@ == self.commands@[i as int].name@ + params_text(self.commands@[i as int].params@),
    {
        let p = params_signature(&self.commands[i].params);
        self.commands[i].name.clone().concat(p.as_str())
    }

    /// The help text: every command with its signature and description.
    pub fn help_text(&self) -> (r: String)
        ensures
            r@ == help_spec(self.commands@),
    {
        let mut out = String::new();
        let mut i: usize = 0;
        while i < self.commands.len()
            invariant
                i <= self.commands@.len(),
                out@ == help_lines(self.commands@.take(i as int)),
            decreases self.commands@.len() - i,
        {
            let sig = self.signature(i);
            out = out.concat("  ").concat(sig.as_str()).concat("  ").concat(
                self.commands[i].description.as_str(),
            ).concat("\n");
            assert(self.commands@.take(i + 1).drop_last() == self.commands@.take(i as int));
            i = i + 1;
        }
        assert(self.commands@.take(self.commands@.len() as int) == self.commands@);
        "Available commands:\n".to_owned().concat(out.as_str()).concat(
            "  help  Show this help message\n  quit  Quit repl\n",
        )
    }
}

fn name_is_valid(n: &String) -> (r: bool)
    ensures
        r == valid_name(n@),
{
    let len = n.as_str().unicode_len();
    if len == 0 {
        return false;
    }
    let mut i: usize = 0;
    while i < len
        invariant
            len == n@.len(),
            i <= len,
            forall|j: int| 0 <= j < i ==> !is_space(#[trigger] n@[j]),
        decreases len - i,
    {
        let c = n.as_str().get_char(i);
        if c == ' ' || c == '\t' || c == '\n' || c == '\r' {
            return false;
        }
        i = i + 1;
    }
    true
}

} // verus!
