//! The built-in command registry and the built-in command bodies that carry
//! logic of their own.
//!
//! The registry maps a command name to a handle for one of a fixed, closed
//! set of built-ins: `cd`, `help` and `exit`. Matching is case-sensitive and
//! exact. The registry holds no mutable state, so rebuilding it per dispatch
//! and caching it at startup are indistinguishable to callers.

use vstd::prelude::*;

use crate::dispatch::DispatchError;

verus! {

/// A handle for one of the built-in commands.
#[derive(Clone, Copy, Debug, PartialEq, Eq, Structural)]
pub enum Builtin {
    Cd,
    Help,
    Exit,
}

/// Which built-in, if any, a command name resolves to.
pub open spec fn builtin_of(name: Seq<char>) -> Option<Builtin> {
    if name == "cd"@ {
        Some(Builtin::Cd)
    } else if name == "help"@ {
        Some(Builtin::Help)
    } else if name == "exit"@ {
        Some(Builtin::Exit)
    } else {
        None
    }
}

/// Character-by-character string comparison, so that contracts can speak of
/// the views of both operands.
pub fn str_eq(a: &str, b: &str) -> (r: bool)
    ensures
        r == (a@ == b@),
{
    let na = a.unicode_len();
    let nb = b.unicode_len();
    if na != nb {
        return false;
    }
    let mut i: usize = 0;
    while i < na
        invariant
            i <= na,
            na == a@.len(),
            nb == b@.len(),
            na == nb,
            forall|j: int| 0 <= j < i ==> a@[j] == b@[j],
        decreases na - i,
    {
        if a.get_char(i) != b.get_char(i) {
            return false;
        }
        i = i + 1;
    }
    proof {
        assert(a@ =~= b@);
    }
    true
}

/// The immutable table of built-in commands: an association list from
/// command name to handle, fixed for the process lifetime.
pub struct BuiltinTable {
    entries: Vec<(String, Builtin)>,
}

impl BuiltinTable {
    /// The table's contents: its name/handle pairs, over views.
    pub closed spec fn entries_model(&self) -> Seq<(Seq<char>, Builtin)> {
        Seq::new(self.entries@.len(), |i: int| (self.entries@[i].0@, self.entries@[i].1))
    }

    /// Well-formed: exactly one entry per built-in, under its name. This is
    /// the whole registry, so membership here coincides with [`builtin_of`].
    pub open spec fn wf(&self) -> bool {
        self.entries_model() =~= seq![
            ("cd"@, Builtin::Cd),
            ("help"@, Builtin::Help),
            ("exit"@, Builtin::Exit),
        ]
    }

    /// Looks `name` up in the table, returning the handle of the built-in it
    /// names, if any. Matching is exact and case-sensitive.
    pub fn resolve(&self, name: &str) -> (r: Option<Builtin>)
        requires
            self.wf(),
        ensures
            r == builtin_of(name@),
    {
        let mut k: usize = 0;
        while k < self.entries.len()
            invariant
                self.wf(),
                k <= self.entries@.len(),
                forall|j: int| 0 <= j < k ==> (#[trigger] self.entries_model()[j]).0 != name@,
            decreases self.entries@.len() - k,
        {
            if str_eq(self.entries[k].0.as_str(), name) {
                proof {
                    assert(self.entries_model()[k as int].0 == name@);
                }
                return Some(self.entries[k].1);
            }
            proof {
                assert(self.entries_model()[k as int].0 != name@);
            }
            k = k + 1;
        }
        None
    }
}

/// Builds the registry of built-in commands. Rebuilding it per dispatch and
/// caching it at startup are indistinguishable: it is the same fixed table
/// either way.
pub fn get_builtins() -> (t: BuiltinTable)
    ensures
        t.wf(),
{
    let mut entries: Vec<(String, Builtin)> = Vec::new();
    entries.push(("cd".to_owned(), Builtin::Cd));
    entries.push(("help".to_owned(), Builtin::Help));
    entries.push(("exit".to_owned(), Builtin::Exit));
    let t = BuiltinTable { entries };
    proof {
        assert(t.entries_model() =~= seq![
            ("cd"@, Builtin::Cd),
            ("help"@, Builtin::Help),
            ("exit"@, Builtin::Exit),
        ]);
    }
    t
}

/// The `cd` built-in's own logic: it demands exactly one argument after the
/// command name and hands the target path back to the caller, which performs
/// the actual working-directory change. Any other arity is rejected with
/// `InvalidInput` and nothing is changed.
pub fn lsh_cd(args: &Vec<String>) -> (r: Result<String, DispatchError>)
    ensures
        args@.len() == 2 ==> (r matches Ok(p) && p@ == args@[1]@),
        args@.len() != 2 ==> r == Err::<String, DispatchError>(DispatchError::InvalidInput),
{
    if args.len() != 2 {
        Err(DispatchError::InvalidInput)
    } else {
        Ok(args[1].clone())
    }
}

/// Maps the outcome of the working-directory change to the dispatch result:
/// success is `Ok`, and an operating-system rejection (missing path, not a
/// directory, permission) is exactly `ChangeDirectoryError`.
pub fn cd_outcome(changed: bool) -> (r: Result<(), DispatchError>)
    ensures
        changed ==> r == Ok::<(), DispatchError>(()),
        !changed ==> r == Err::<(), DispatchError>(DispatchError::ChangeDirectoryError),
{
    if changed {
        Ok(())
    } else {
        Err(DispatchError::ChangeDirectoryError)
    }
}

/// The full usage summary printed by the `help` built-in.
pub open spec fn help_message() -> Seq<char> {
    "rsh: simple shell\nType program names and arguments, and hit enter.\nThe following are built in:\ncd\thelp\texit\n"@
}

/// The `help` built-in: ignores its arguments and always succeeds, producing
/// the fixed usage text for the caller to print.
pub fn lsh_help(args: &Vec<String>) -> (r: String)
    ensures
        r@ == help_message(),
{
    let text =
        "rsh: simple shell\nType program names and arguments, and hit enter.\nThe following are built in:\ncd\thelp\texit\n";
    text.to_owned()
}

/// `hay` has `needle` as a contiguous subsequence.
pub open spec fn contains_seq(hay: Seq<char>, needle: Seq<char>) -> bool {
    exists|k: int|
        0 <= k && k + needle.len() <= hay.len() && #[trigger] hay.subrange(k, k + needle.len())
            == needle
}

/// The help text names every built-in: `cd`, `help` and `exit` all occur
/// literally in it.
pub proof fn lemma_help_lists_builtins()
    ensures
        contains_seq(help_message(), "cd"@),
        contains_seq(help_message(), "help"@),
        contains_seq(help_message(), "exit"@),
{
    reveal_strlit(
        "rsh: simple shell\nType program names and arguments, and hit enter.\nThe following are built in:\ncd\thelp\texit\n",
    );
    reveal_strlit("cd");
    reveal_strlit("help");
    reveal_strlit("exit");
    let h = help_message();
    assert(h.subrange(95, 95 + "cd"@.len() as int) =~= "cd"@);
    assert(h.subrange(98, 98 + "help"@.len() as int) =~= "help"@);
    assert(h.subrange(103, 103 + "exit"@.len() as int) =~= "exit"@);
}

} // verus!
