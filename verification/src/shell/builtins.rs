//! The closed set of builtin commands, their registry, and their handlers.

use vstd::prelude::*;
use vstd::string::StringExecFns;
use vstd::string::StrSliceExecFns;
use super::str_eq;
use super::ShellError;
use super::TinySh;
use super::cmd_validation::{classify, classify_spec, Classification, PathInfo};

verus! {

/// The closed enumeration of builtin commands.
#[derive(Clone, Copy, Debug, PartialEq, Eq, Hash, Structural)]
pub enum BuiltInCMD {
    CD,
    ECHO,
    TYPE,
    HELP,
    EXPORT,
}

/// The name under which a builtin is invoked.
pub open spec fn builtin_name(c: BuiltInCMD) -> Seq<char> {
    match c {
        BuiltInCMD::CD => "cd"@,
        BuiltInCMD::ECHO => "echo"@,
        BuiltInCMD::TYPE => "type"@,
        BuiltInCMD::HELP => "help"@,
        BuiltInCMD::EXPORT => "export"@,
    }
}

/// Which builtin, if any, a command name denotes.
pub open spec fn builtin_of(s: Seq<char>) -> Option<BuiltInCMD> {
    if s == "cd"@ {
        Some(BuiltInCMD::CD)
    } else if s == "echo"@ {
        Some(BuiltInCMD::ECHO)
    } else if s == "type"@ {
        Some(BuiltInCMD::TYPE)
    } else if s == "help"@ {
        Some(BuiltInCMD::HELP)
    } else if s == "export"@ {
        Some(BuiltInCMD::EXPORT)
    } else {
        None
    }
}

impl BuiltInCMD {
    /// Resolves a command name to a builtin, if it names one.
    pub fn is_builtin(name: &str) -> (r: Option<BuiltInCMD>)
        ensures
            r == builtin_of(name@),
    {
        if str_eq(name, "cd") {
            Some(BuiltInCMD::CD)
        } else if str_eq(name, "echo") {
            Some(BuiltInCMD::ECHO)
        } else if str_eq(name, "type") {
            Some(BuiltInCMD::TYPE)
        } else if str_eq(name, "help") {
            Some(BuiltInCMD::HELP)
        } else if str_eq(name, "export") {
            Some(BuiltInCMD::EXPORT)
        } else {
            None
        }
    }

    /// The invocation name of this builtin.
    pub fn name(&self) -> (r: String)
        ensures
            r@ == builtin_name(*self),
    {
        match *self {
            BuiltInCMD::CD => String::from_str("cd"),
            BuiltInCMD::ECHO => String::from_str("echo"),
            BuiltInCMD::TYPE => String::from_str("type"),
            BuiltInCMD::HELP => String::from_str("help"),
            BuiltInCMD::EXPORT => String::from_str("export"),
        }
    }
}

/// Builtin names resolve to themselves: the registry's naming is injective
/// and classification by name recovers each member of the enumeration.
pub proof fn lemma_builtin_name_round_trip(c: BuiltInCMD)
    ensures
        builtin_of(builtin_name(c)) == Some(c),
{
    reveal_strlit("cd");
    reveal_strlit("echo");
    reveal_strlit("type");
    reveal_strlit("help");
    reveal_strlit("export");
    assert("cd"@.len() == 2 && "echo"@.len() == 4 && "type"@.len() == 4 && "help"@.len() == 4
        && "export"@.len() == 6);
    assert("echo"@[0] == 'e' && "type"@[0] == 't' && "help"@[0] == 'h');
}

/// A handler's declared access to the shell state: mutable, read-only, or
/// none. The payload names the builtin the handler implements.
#[derive(Clone, Copy, Debug, PartialEq, Eq, Structural)]
pub enum BuiltInFn {
    MutShellState(BuiltInCMD),
    ReadShellState(BuiltInCMD),
    NoShellState(BuiltInCMD),
}

/// The access level each builtin's handler declares. Only `export` mutates
/// the shell state; `cd` changes the process working directory, which is not
/// part of the shell state.
pub open spec fn handler_of(c: BuiltInCMD) -> BuiltInFn {
    match c {
        BuiltInCMD::CD => BuiltInFn::NoShellState(BuiltInCMD::CD),
        BuiltInCMD::ECHO => BuiltInFn::NoShellState(BuiltInCMD::ECHO),
        BuiltInCMD::TYPE => BuiltInFn::NoShellState(BuiltInCMD::TYPE),
        BuiltInCMD::HELP => BuiltInFn::NoShellState(BuiltInCMD::HELP),
        BuiltInCMD::EXPORT => BuiltInFn::MutShellState(BuiltInCMD::EXPORT),
    }
}

/// The registry's key order.
pub open spec fn all_builtins() -> Seq<BuiltInCMD> {
    seq![BuiltInCMD::CD, BuiltInCMD::ECHO, BuiltInCMD::TYPE, BuiltInCMD::HELP, BuiltInCMD::EXPORT]
}

/// Every member of the enumeration stands in the registry order exactly once.
pub proof fn lemma_registry_exhaustive(c: BuiltInCMD)
    ensures
        all_builtins().contains(c),
        forall|i: int, j: int|
            0 <= i < j < all_builtins().len() ==> all_builtins()[i] != all_builtins()[j],
{
    match c {
        BuiltInCMD::CD => assert(all_builtins()[0] == c),
        BuiltInCMD::ECHO => assert(all_builtins()[1] == c),
        BuiltInCMD::TYPE => assert(all_builtins()[2] == c),
        BuiltInCMD::HELP => assert(all_builtins()[3] == c),
        BuiltInCMD::EXPORT => assert(all_builtins()[4] == c),
    }
}

/// The dispatch table: each enumerated builtin bound to the handler with the
/// access level it declares. Built exhaustively; the postcondition is the
/// build-time check that no member lacks a handler.
pub fn get_builtins() -> (r: Vec<(BuiltInCMD, BuiltInFn)>)
    ensures
        r@.len() == all_builtins().len(),
        forall|i: int|
            0 <= i < r@.len() ==> r@[i].0 == all_builtins()[i] && r@[i].1 == handler_of(
                all_builtins()[i],
            ),
{
    let r: Vec<(BuiltInCMD, BuiltInFn)> = vec![
        (BuiltInCMD::CD, BuiltInFn::NoShellState(BuiltInCMD::CD)),
        (BuiltInCMD::ECHO, BuiltInFn::NoShellState(BuiltInCMD::ECHO)),
        (BuiltInCMD::TYPE, BuiltInFn::NoShellState(BuiltInCMD::TYPE)),
        (BuiltInCMD::HELP, BuiltInFn::NoShellState(BuiltInCMD::HELP)),
        (BuiltInCMD::EXPORT, BuiltInFn::MutShellState(BuiltInCMD::EXPORT)),
    ];
    r
}

/// What `echo` writes: each argument followed by one space, then a newline.
pub open spec fn echo_output(args: Seq<Seq<char>>) -> Seq<char>
    decreases args.len(),
{
    if args.len() == 0 {
        "\n"@
    } else {
        args[0] + " "@ + echo_output(args.drop_first())
    }
}

/// Builds the line `echo` prints. Stateless.
pub fn echo(args: &Vec<String>) -> (out: String)
    ensures
        out@ == echo_output(args.deep_view()),
{
    let ghost dv = args.deep_view();
    let mut out = String::new();
    let n = args.len();
    let mut i: usize = 0;
    proof {
        assert(dv.skip(0) =~= dv);
        assert(out@ + echo_output(dv) =~= echo_output(dv));
    }
    while i < n
        invariant
            n == args.len(),
            0 <= i <= n,
            dv == args.deep_view(),
            dv.len() == n,
            echo_output(dv) == out@ + echo_output(dv.skip(i as int)),
        decreases n - i,
    {
        let ghost pre = out@;
        out.append(args[i].as_str());
        out.append(" ");
        proof {
            assert(dv.skip(i as int).drop_first() =~= dv.skip(i + 1));
            assert(dv.skip(i as int)[0] == dv[i as int]);
            assert(dv[i as int] == args@[i as int]@);
            assert(out@ + echo_output(dv.skip(i + 1)) =~= pre + echo_output(dv.skip(i as int)));
        }
        i += 1;
    }
    out.append("\n");
    proof {
        assert(dv.skip(n as int) =~= Seq::<Seq<char>>::empty());
        assert(out@ =~= echo_output(dv));
    }
    out
}

/// Splits `KEY=VALUE` at the first `=`: the key is everything before it,
/// the value everything after, so values may themselves contain `=`.
pub open spec fn split_assignment(s: Seq<char>) -> Option<(Seq<char>, Seq<char>)>
    decreases s.len(),
{
    if s.len() == 0 {
        None
    } else if s[0] == '=' {
        Some((Seq::empty(), s.drop_first()))
    } else {
        match split_assignment(s.drop_first()) {
            None => None,
            Some(kv) => Some((seq![s[0]] + kv.0, kv.1)),
        }
    }
}

proof fn lemma_split_at_first_eq(s: Seq<char>, i: int)
    requires
        0 <= i < s.len(),
        s[i] == '=',
        forall|j: int| 0 <= j < i ==> s[j] != '=',
    ensures
        split_assignment(s) == Some((s.subrange(0, i), s.subrange(i + 1, s.len() as int))),
    decreases i,
{
    if i == 0 {
        assert(s.subrange(0, 0) =~= Seq::<char>::empty());
        assert(s.subrange(1, s.len() as int) =~= s.drop_first());
    } else {
        let t = s.drop_first();
        assert(t[i - 1] == '=');
        assert(forall|j: int| 0 <= j < i - 1 ==> t[j] != '=');
        lemma_split_at_first_eq(t, i - 1);
        assert(seq![s[0]] + t.subrange(0, i - 1) =~= s.subrange(0, i));
        assert(t.subrange(i, t.len() as int) =~= s.subrange(i + 1, s.len() as int));
    }
}

proof fn lemma_split_no_eq(s: Seq<char>)
    requires
        forall|j: int| 0 <= j < s.len() ==> s[j] != '=',
    ensures
        split_assignment(s) is None,
    decreases s.len(),
{
    if s.len() > 0 {
        lemma_split_no_eq(s.drop_first());
    }
}

/// Stores a `KEY=VALUE` assignment in the shell state, overwriting any
/// earlier binding of `KEY`. With no `=` in the argument, fails with
/// `MalformedAssignmentError` and leaves the state untouched.
pub fn export(tiny_sh: &mut TinySh, args: &Vec<String>) -> (r: Result<(), ShellError>)
    requires
        args@.len() == 1,
        old(tiny_sh).wf(),
    ensures
        final(tiny_sh).wf(),
        match split_assignment(args@[0]@) {
            Some(kv) => r == Result::<(), ShellError>::Ok(()) && final(tiny_sh)@ == old(
                tiny_sh,
            )@.insert(kv.0, kv.1),
            None => r == Result::<(), ShellError>::Err(ShellError::MalformedAssignmentError)
                && *final(tiny_sh) == *old(tiny_sh),
        },
{
    let s = args[0].as_str();
    let n = s.unicode_len();
    let mut i: usize = 0;
    while i < n
        invariant
            args@.len() == 1,
            s@ == args@[0]@,
            n == s@.len(),
            0 <= i <= n,
            forall|j: int| 0 <= j < i ==> s@[j] != '=',
            *tiny_sh == *old(tiny_sh),
            old(tiny_sh).wf(),
        decreases n - i,
    {
        if s.get_char(i) == '=' {
            proof {
                lemma_split_at_first_eq(s@, i as int);
            }
            let key = String::from_str(s.substring_char(0, i));
            let val = String::from_str(s.substring_char(i + 1, n));
            tiny_sh.insert_env_var(key, val);
            return Ok(());
        }
        i += 1;
    }
    proof {
        lemma_split_no_eq(s@);
    }
    Err(ShellError::MalformedAssignmentError)
}

/// Decides a directory change: with an existing directory the path is
/// handed back for the surrounding process to move into; otherwise the
/// change fails with `DirectoryChangeError`.
pub fn cd(args: &Vec<String>, info: &PathInfo) -> (r: Result<String, ShellError>)
    requires
        args@.len() == 1,
    ensures
        if info.exists && info.is_dir {
            r matches Ok(p) && p@ == args@[0]@
        } else {
            r == Result::<String, ShellError>::Err(ShellError::DirectoryChangeError)
        },
{
    if info.exists && info.is_dir {
        Ok(args[0].clone())
    } else {
        Err(ShellError::DirectoryChangeError)
    }
}

/// What `type` reports for a name, given the resolver's verdict on it.
pub open spec fn type_message(name: Seq<char>, c: Classification) -> Seq<char> {
    name + match c {
        Classification::Builtin => " is a shell builtin\n"@,
        Classification::External => " is an external command\n"@,
        Classification::Unknown => " is an unknown command\n"@,
    }
}

/// Builds the line `type` prints: how its argument resolves, by the same
/// classification the resolver uses, without executing anything.
pub fn cmd_type(args: &Vec<String>, info: &PathInfo, search_found: bool) -> (out: String)
    requires
        args@.len() == 1,
    ensures
        out@ == type_message(args@[0]@, classify_spec(args@[0]@, *info, search_found)),
{
    let c = classify(args[0].as_str(), info, search_found);
    let mut out = args[0].clone();
    match c {
        Classification::Builtin => out.append(" is a shell builtin\n"),
        Classification::External => out.append(" is an external command\n"),
        Classification::Unknown => out.append(" is an unknown command\n"),
    }
    out
}

/// What `help` writes: every registered builtin name, one per line, in
/// registry order.
pub open spec fn help_output(cs: Seq<BuiltInCMD>) -> Seq<char>
    decreases cs.len(),
{
    if cs.len() == 0 {
        Seq::empty()
    } else {
        builtin_name(cs[0]) + "\n"@ + help_output(cs.drop_first())
    }
}

/// Builds the listing `help` prints. Stateless.
pub fn help(args: &Vec<String>) -> (out: String)
    requires
        args@.len() == 0,
    ensures
        out@ == help_output(all_builtins()),
{
    let registry = get_builtins();
    let ghost all = all_builtins();
    let mut out = String::new();
    let n = registry.len();
    let mut i: usize = 0;
    proof {
        assert(all.skip(0) =~= all);
        assert(out@ + help_output(all) =~= help_output(all));
    }
    while i < n
        invariant
            n == registry.len(),
            n == all.len(),
            all == all_builtins(),
            0 <= i <= n,
            forall|k: int| 0 <= k < n ==> registry@[k].0 == all[k],
            help_output(all) == out@ + help_output(all.skip(i as int)),
        decreases n - i,
    {
        let ghost pre = out@;
        let nm = registry[i].0.name();
        out.append(nm.as_str());
        out.append("\n");
        proof {
            assert(all.skip(i as int).drop_first() =~= all.skip(i + 1));
            assert(all.skip(i as int)[0] == all[i as int]);
            assert(out@ + help_output(all.skip(i + 1)) =~= pre + help_output(all.skip(i as int)));
        }
        i += 1;
    }
    proof {
        assert(all.skip(n as int) =~= Seq::<BuiltInCMD>::empty());
        assert(out@ =~= help_output(all));
    }
    out
}

} // verus!
