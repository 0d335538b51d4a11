//! Session state, tokenization, and builtin dispatch.

use vstd::prelude::*;
use vstd::string::StringExecFns;

pub mod builtins;
pub mod cmd_validation;
pub mod pty;

use self::builtins::{
    all_builtins, builtin_of, cd, cmd_type, echo, echo_output, export, get_builtins, handler_of,
    help, help_output, lemma_registry_exhaustive, split_assignment, type_message, BuiltInCMD,
    BuiltInFn,
};
use self::cmd_validation::{classify_spec, PathInfo};

verus! {

/// Compares two string slices by their character sequences.
pub(crate) fn str_eq(a: &str, b: &str) -> (r: bool)
    ensures
        r == (a@ == b@),
{
    let sa = String::from_str(a);
    let sb = String::from_str(b);
    sa == sb
}

/// The error kinds a shell command can surface. An unknown command is a
/// reported outcome, not an error, and so has no variant here.
#[derive(Clone, Copy, Debug, PartialEq, Eq, Structural)]
pub enum ShellError {
    DirectoryChangeError,
    MalformedAssignmentError,
    SpawnError,
    PtyAllocationError,
    TerminalModeError,
    OutputStreamError,
    ChildWaitError,
}

impl ShellError {
    /// A human-readable description of the error.
    pub fn message(&self) -> (m: String)
        ensures
            m@ == match *self {
                ShellError::DirectoryChangeError => "Failed to change directory"@,
                ShellError::MalformedAssignmentError => "Incorrect Environment Variable formatting. Expected \"key=val\""@,
                ShellError::SpawnError => "Failed to spawn external command"@,
                ShellError::PtyAllocationError => "Failed to allocate pseudo-terminal"@,
                ShellError::TerminalModeError => "Failed to switch terminal mode"@,
                ShellError::OutputStreamError => "Failed to read the external command's output"@,
                ShellError::ChildWaitError => "Failed to wait for the external command"@,
            },
    {
        match *self {
            ShellError::DirectoryChangeError => String::from_str("Failed to change directory"),
            ShellError::MalformedAssignmentError => String::from_str(
                "Incorrect Environment Variable formatting. Expected \"key=val\"",
            ),
            ShellError::SpawnError => String::from_str("Failed to spawn external command"),
            ShellError::PtyAllocationError => String::from_str("Failed to allocate pseudo-terminal"),
            ShellError::TerminalModeError => String::from_str("Failed to switch terminal mode"),
            ShellError::OutputStreamError => String::from_str(
                "Failed to read the external command's output",
            ),
            ShellError::ChildWaitError => String::from_str(
                "Failed to wait for the external command",
            ),
        }
    }
}

/// The environment-variable table as a mathematical map, later entries
/// overwriting earlier ones with the same key.
pub open spec fn map_of(s: Seq<(String, String)>) -> Map<Seq<char>, Seq<char>>
    decreases s.len(),
{
    if s.len() == 0 {
        Map::empty()
    } else {
        map_of(s.drop_last()).insert(s.last().0@, s.last().1@)
    }
}

/// No two entries bind the same variable name.
pub open spec fn distinct_keys(s: Seq<(String, String)>) -> bool {
    forall|i: int, j: int| 0 <= i < j < s.len() ==> s[i].0@ != s[j].0@
}

proof fn lemma_map_of_update(s: Seq<(String, String)>, i: int, kv: (String, String))
    requires
        0 <= i < s.len(),
        kv.0@ == s[i].0@,
        distinct_keys(s),
    ensures
        map_of(s.update(i, kv)) == map_of(s).insert(kv.0@, kv.1@),
    decreases s.len(),
{
    let t = s.update(i, kv);
    if i == s.len() - 1 {
        assert(t.drop_last() =~= s.drop_last());
        assert(map_of(t) == map_of(s.drop_last()).insert(kv.0@, kv.1@));
        assert(map_of(s.drop_last()).insert(s.last().0@, s.last().1@).insert(kv.0@, kv.1@)
            =~= map_of(s.drop_last()).insert(kv.0@, kv.1@));
    } else {
        assert(t.drop_last() =~= s.drop_last().update(i, kv));
        assert(distinct_keys(s.drop_last()));
        lemma_map_of_update(s.drop_last(), i, kv);
        assert(s.last().0@ != kv.0@);
        assert(map_of(s.drop_last()).insert(kv.0@, kv.1@).insert(s.last().0@, s.last().1@)
            =~= map_of(s.drop_last()).insert(s.last().0@, s.last().1@).insert(kv.0@, kv.1@));
    }
}

/// Session-scoped shell state: the environment-variable table.
pub struct TinySh {
    pub env_vars: Vec<(String, String)>,
}

impl View for TinySh {
    type V = Map<Seq<char>, Seq<char>>;

    open spec fn view(&self) -> Map<Seq<char>, Seq<char>> {
        map_of(self.env_vars@)
    }
}

impl TinySh {
    /// The table holds no duplicate variable names.
    pub open spec fn wf(&self) -> bool {
        distinct_keys(self.env_vars@)
    }

    /// A fresh session with an empty variable table.
    pub fn new() -> (r: TinySh)
        ensures
            r.wf(),
            r@ == Map::<Seq<char>, Seq<char>>::empty(),
            r.env_vars@.len() == 0,
    {
        TinySh { env_vars: Vec::new() }
    }

    /// Inserts or overwrites one variable binding.
    pub fn insert_env_var(&mut self, key: String, val: String)
        requires
            old(self).wf(),
        ensures
            final(self).wf(),
            final(self)@ == old(self)@.insert(key@, val@),
    {
        let ghost orig = old(self).env_vars@;
        let n = self.env_vars.len();
        let mut i: usize = 0;
        while i < n
            invariant
                n == self.env_vars.len(),
                0 <= i <= n,
                self.env_vars@ == orig,
                orig == old(self).env_vars@,
                distinct_keys(orig),
                forall|j: int| 0 <= j < i ==> orig[j].0@ != key@,
            decreases n - i,
        {
            if str_eq(self.env_vars[i].0.as_str(), key.as_str()) {
                let kv = (key, val);
                proof {
                    lemma_map_of_update(orig, i as int, kv);
                }
                self.env_vars.set(i, kv);
                return;
            }
            i += 1;
        }
        self.env_vars.push((key, val));
        proof {
            assert(self.env_vars@.drop_last() =~= orig);
        }
    }
}

/// Whitespace tokenization on single spaces: no quoting or escaping, so a
/// run of consecutive spaces yields empty tokens. Never empty: a blank line
/// gives one empty token.
pub open spec fn tokenize(s: Seq<char>) -> Seq<Seq<char>>
    decreases s.len(),
{
    if s.len() == 0 {
        seq![Seq::<char>::empty()]
    } else if s[0] == ' ' {
        seq![Seq::<char>::empty()] + tokenize(s.drop_first())
    } else {
        let rest = tokenize(s.drop_first());
        seq![seq![s[0]] + rest[0]] + rest.drop_first()
    }
}

pub proof fn lemma_tokenize_nonempty(s: Seq<char>)
    ensures
        tokenize(s).len() >= 1,
    decreases s.len(),
{
    if s.len() > 0 {
        lemma_tokenize_nonempty(s.drop_first());
    }
}

/// The tokens still owed once a partial token `cur` has been read: `cur`
/// extends the first token of the remaining input's tokenization.
spec fn glue(cur: Seq<char>, rest: Seq<Seq<char>>) -> Seq<Seq<char>> {
    seq![cur + rest[0]] + rest.drop_first()
}

/// Splits an input line into the command name and its arguments.
pub fn split_input(s: &str) -> (r: (String, Vec<String>))
    ensures
        r.0@ == tokenize(s@)[0],
        r.1.deep_view() == tokenize(s@).drop_first(),
{
    let n = s.unicode_len();
    let mut toks: Vec<String> = Vec::new();
    let mut start: usize = 0;
    let mut i: usize = 0;
    proof {
        lemma_tokenize_nonempty(s@);
        let t = tokenize(s@);
        assert(s@.subrange(0, n as int) =~= s@);
        assert(s@.subrange(0, 0) =~= Seq::<char>::empty());
        assert(Seq::<char>::empty() + t[0] =~= t[0]);
        assert(glue(Seq::<char>::empty(), t) =~= t);
        assert(toks.deep_view() =~= Seq::<Seq<char>>::empty());
        assert(toks.deep_view() + glue(s@.subrange(0, 0), tokenize(s@.subrange(0, n as int)))
            =~= t);
    }
    while i < n
        invariant
            n == s@.len(),
            0 <= start <= i <= n,
            forall|j: int| start <= j < i ==> s@[j] != ' ',
            tokenize(s@) == toks.deep_view() + glue(
                s@.subrange(start as int, i as int),
                tokenize(s@.subrange(i as int, n as int)),
            ),
        decreases n - i,
    {
        let ghost cur = s@.subrange(start as int, i as int);
        let ghost suf = s@.subrange(i as int, n as int);
        proof {
            assert(suf.len() > 0);
            assert(suf[0] == s@[i as int]);
            assert(suf.drop_first() =~= s@.subrange(i + 1, n as int));
            lemma_tokenize_nonempty(suf.drop_first());
        }
        let c = s.get_char(i);
        if c == ' ' {
            let tok = String::from_str(s.substring_char(start, i));
            proof {
                let tnext = tokenize(s@.subrange(i + 1, n as int));
                assert(tokenize(suf) == seq![Seq::<char>::empty()] + tnext);
                assert(tokenize(suf)[0] =~= Seq::<char>::empty());
                assert(tokenize(suf).drop_first() =~= tnext);
                assert(cur + tokenize(suf)[0] =~= cur);
                assert(glue(cur, tokenize(suf)) =~= seq![cur] + tnext);
                assert(s@.subrange(i + 1, i + 1) =~= Seq::<char>::empty());
                assert(Seq::<char>::empty() + tnext[0] =~= tnext[0]);
                assert(glue(s@.subrange(i + 1, i + 1), tnext) =~= tnext);
                assert(toks.deep_view().push(tok@) + tnext =~= toks.deep_view() + (seq![cur]
                    + tnext));
            }
            toks.push(tok);
            proof {
                assert(toks.deep_view() =~= toks.deep_view().subrange(
                    0,
                    toks.deep_view().len() - 1,
                ).push(tok@));
            }
            start = i + 1;
        } else {
            proof {
                let rest = tokenize(suf.drop_first());
                assert(tokenize(suf) == seq![seq![suf[0]] + rest[0]] + rest.drop_first());
                assert(s@.subrange(start as int, i + 1) =~= cur + seq![s@[i as int]]);
                assert(cur + (seq![suf[0]] + rest[0]) =~= (cur + seq![s@[i as int]]) + rest[0]);
                assert(glue(cur, tokenize(suf)) =~= glue(
                    s@.subrange(start as int, i + 1),
                    rest,
                ));
            }
        }
        i += 1;
    }
    let tok = String::from_str(s.substring_char(start, n));
    proof {
        let cur = s@.subrange(start as int, n as int);
        assert(s@.subrange(n as int, n as int) =~= Seq::<char>::empty());
        assert(tokenize(s@.subrange(n as int, n as int)) == seq![Seq::<char>::empty()]);
        assert(cur + Seq::<char>::empty() =~= cur);
        assert(glue(cur, seq![Seq::<char>::empty()]) =~= seq![cur]);
        assert(toks.deep_view().push(tok@) =~= toks.deep_view() + seq![cur]);
    }
    toks.push(tok);
    proof {
        assert(toks.deep_view() =~= toks.deep_view().subrange(0, toks.deep_view().len() - 1).push(
            tok@,
        ));
        assert(toks.deep_view() =~= tokenize(s@));
        lemma_tokenize_nonempty(s@);
    }
    let head = toks.remove(0);
    proof {
        assert(toks.deep_view() =~= tokenize(s@).drop_first());
    }
    (head, toks)
}

/// What a dispatched builtin asks its surroundings to do: write a string to
/// standard output, move the process into a directory, or nothing.
#[derive(Debug, PartialEq, Eq)]
pub enum BuiltinEffect {
    Print(String),
    ChangeDir(String),
    NoOutput,
}

/// The argument count each builtin requires of its caller.
pub open spec fn builtin_args_ok(cmd: BuiltInCMD, n_args: nat) -> bool {
    match cmd {
        BuiltInCMD::CD => n_args == 1,
        BuiltInCMD::ECHO => true,
        BuiltInCMD::TYPE => n_args == 1,
        BuiltInCMD::HELP => n_args == 0,
        BuiltInCMD::EXPORT => n_args == 1,
    }
}

/// How run_builtin must behave for one command, given the collaborators'
/// answers about the first argument.
pub open spec fn dispatch_post(
    cmd: BuiltInCMD,
    pre: TinySh,
    post: TinySh,
    args: Seq<String>,
    info: PathInfo,
    search_found: bool,
    r: Result<BuiltinEffect, ShellError>,
) -> bool {
    match cmd {
        BuiltInCMD::CD => post == pre && (if info.exists && info.is_dir {
            r matches Ok(BuiltinEffect::ChangeDir(p)) && p@ == args[0]@
        } else {
            r == Result::<BuiltinEffect, ShellError>::Err(ShellError::DirectoryChangeError)
        }),
        BuiltInCMD::ECHO => post == pre && (r matches Ok(BuiltinEffect::Print(s)) && s@
            == echo_output(args.map_values(|a: String| a@))),
        BuiltInCMD::TYPE => post == pre && (r matches Ok(BuiltinEffect::Print(s)) && s@
            == type_message(args[0]@, classify_spec(args[0]@, info, search_found))),
        BuiltInCMD::HELP => post == pre && (r matches Ok(BuiltinEffect::Print(s)) && s@
            == help_output(all_builtins())),
        BuiltInCMD::EXPORT => match split_assignment(args[0]@) {
            Some(kv) => r == Result::<BuiltinEffect, ShellError>::Ok(BuiltinEffect::NoOutput)
                && post@ == pre@.insert(kv.0, kv.1),
            None => r == Result::<BuiltinEffect, ShellError>::Err(
                ShellError::MalformedAssignmentError,
            ) && post == pre,
        },
    }
}

fn lookup_handler(registry: &Vec<(BuiltInCMD, BuiltInFn)>, cmd: &BuiltInCMD) -> (h: BuiltInFn)
    requires
        registry@.len() == all_builtins().len(),
        forall|k: int|
            0 <= k < registry@.len() ==> registry@[k].0 == all_builtins()[k] && registry@[k].1
                == handler_of(all_builtins()[k]),
    ensures
        h == handler_of(*cmd),
{
    proof {
        lemma_registry_exhaustive(*cmd);
    }
    let n = registry.len();
    let mut i: usize = 0;
    while i < n
        invariant
            n == registry@.len(),
            n == all_builtins().len(),
            0 <= i <= n,
            forall|k: int|
                0 <= k < n ==> registry@[k].0 == all_builtins()[k] && registry@[k].1 == handler_of(
                    all_builtins()[k],
                ),
            exists|k: int| i <= k < n && registry@[k].0 == *cmd,
        decreases n - i,
    {
        if registry[i].0 == *cmd {
            return registry[i].1;
        }
        i += 1;
    }
    proof {
        assert(false);
    }
    unreached()
}

fn run_stateless(
    f: &BuiltInCMD,
    args: &Vec<String>,
    info: &PathInfo,
    search_found: bool,
) -> (r: Result<BuiltinEffect, ShellError>)
    requires
        handler_of(*f) matches BuiltInFn::NoShellState(_),
        builtin_args_ok(*f, args@.len() as nat),
    ensures
        match *f {
            BuiltInCMD::CD => if info.exists && info.is_dir {
                r matches Ok(BuiltinEffect::ChangeDir(p)) && p@ == args@[0]@
            } else {
                r == Result::<BuiltinEffect, ShellError>::Err(ShellError::DirectoryChangeError)
            },
            BuiltInCMD::ECHO => r matches Ok(BuiltinEffect::Print(s)) && s@ == echo_output(
                args.deep_view(),
            ),
            BuiltInCMD::TYPE => r matches Ok(BuiltinEffect::Print(s)) && s@ == type_message(
                args@[0]@,
                classify_spec(args@[0]@, *info, search_found),
            ),
            BuiltInCMD::HELP => r matches Ok(BuiltinEffect::Print(s)) && s@ == help_output(
                all_builtins(),
            ),
            BuiltInCMD::EXPORT => true,
        },
{
    match *f {
        BuiltInCMD::CD => match cd(args, info) {
            Ok(p) => Ok(BuiltinEffect::ChangeDir(p)),
            Err(e) => Err(e),
        },
        BuiltInCMD::ECHO => Ok(BuiltinEffect::Print(echo(args))),
        BuiltInCMD::TYPE => Ok(BuiltinEffect::Print(cmd_type(args, info, search_found))),
        BuiltInCMD::HELP => Ok(BuiltinEffect::Print(help(args))),
        BuiltInCMD::EXPORT => unreached(),
    }
}

fn run_mut(f: &BuiltInCMD, tiny_sh: &mut TinySh, args: &Vec<String>) -> (r: Result<
    BuiltinEffect,
    ShellError,
>)
    requires
        handler_of(*f) matches BuiltInFn::MutShellState(_),
        builtin_args_ok(*f, args@.len() as nat),
        old(tiny_sh).wf(),
    ensures
        final(tiny_sh).wf(),
        match *f {
            BuiltInCMD::EXPORT => match split_assignment(args@[0]@) {
                Some(kv) => r == Result::<BuiltinEffect, ShellError>::Ok(BuiltinEffect::NoOutput)
                    && final(tiny_sh)@ == old(tiny_sh)@.insert(kv.0, kv.1),
                None => r == Result::<BuiltinEffect, ShellError>::Err(
                    ShellError::MalformedAssignmentError,
                ) && *final(tiny_sh) == *old(tiny_sh),
            },
            _ => true,
        },
{
    match *f {
        BuiltInCMD::EXPORT => match export(tiny_sh, args) {
            Ok(()) => Ok(BuiltinEffect::NoOutput),
            Err(e) => Err(e),
        },
        _ => unreached(),
    }
}

/// Dispatches one builtin with exactly the shell-state access its handler
/// declares in the registry, handing back the effect for the surroundings
/// to carry out.
pub fn run_builtin(
    cmd: &BuiltInCMD,
    tiny_sh: &mut TinySh,
    args: &Vec<String>,
    info: &PathInfo,
    search_found: bool,
) -> (r: Result<BuiltinEffect, ShellError>)
    requires
        old(tiny_sh).wf(),
        builtin_args_ok(*cmd, args@.len() as nat),
    ensures
        final(tiny_sh).wf(),
        dispatch_post(*cmd, *old(tiny_sh), *final(tiny_sh), args@, *info, search_found, r),
{
    let builtins = get_builtins();
    let handler = lookup_handler(&builtins, cmd);
    proof {
        assert(args.deep_view() =~= args@.map_values(|a: String| a@));
    }
    match handler {
        BuiltInFn::NoShellState(_) => run_stateless(cmd, args, info, search_found),
        BuiltInFn::MutShellState(_) => run_mut(cmd, tiny_sh, args),
        // no current builtin declares read-only access
        BuiltInFn::ReadShellState(_) => unreached(),
    }
}

/// What the shell loop decides from one input line, before any collaborator
/// is consulted: leave the session, dispatch a builtin, or hand the head
/// token to the resolver. A builtin head never asks for filesystem answers.
#[derive(Debug, PartialEq, Eq)]
pub enum LinePlan {
    Exit,
    Builtin(BuiltInCMD, Vec<String>),
    Resolve(String, Vec<String>),
}

/// Tokenizes one input line and decides how to act on it. The head token
/// `exit` ends the session, bypassing builtin and external resolution.
pub fn plan_line(line: &str) -> (p: LinePlan)
    ensures
        ({
            let ts = tokenize(line@);
            if ts[0] == "exit"@ {
                p == LinePlan::Exit
            } else if builtin_of(ts[0]) is Some {
                p matches LinePlan::Builtin(c, args) && Some(c) == builtin_of(ts[0])
                    && args.deep_view() == ts.drop_first()
            } else {
                p matches LinePlan::Resolve(name, args) && name@ == ts[0] && args.deep_view()
                    == ts.drop_first()
            }
        }),
{
    let (head, args) = split_input(line);
    if str_eq(head.as_str(), "exit") {
        LinePlan::Exit
    } else {
        match BuiltInCMD::is_builtin(head.as_str()) {
            Some(c) => LinePlan::Builtin(c, args),
            None => LinePlan::Resolve(head, args),
        }
    }
}

} // verus!
