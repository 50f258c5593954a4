//! The dispatcher: given one tokenized command line, decide between the
//! built-in table and an external launch, and normalize every outcome into a
//! single result channel.
//!
//! The dispatcher itself performs no I/O and touches no process state. It
//! returns an [`Action`] that says what the surrounding interactive loop must
//! do; the loop performs the action and reports any [`DispatchError`].

use vstd::prelude::*;

use crate::builtins::{builtin_of, get_builtins, lsh_cd, Builtin};
use crate::tokenizer::{is_shell_space, lemma_tokenize_all_space, tokenize_spec};

verus! {

/// The only errors the dispatcher surfaces upward. A child process that
/// fails or is killed is deliberately *not* here: only a malformed built-in
/// invocation or an operating-system rejection of a directory change is a
/// shell-level error.
#[derive(Clone, Copy, Debug, PartialEq, Eq, Structural)]
pub enum DispatchError {
    InvalidInput,
    ChangeDirectoryError,
}

/// What the interactive loop must do for one dispatched command line.
#[derive(Clone, Debug, PartialEq, Eq)]
pub enum Action {
    /// Blank input: do nothing at all.
    NoOp,
    /// Change the process-wide working directory to the given path.
    ChangeDir(String),
    /// Print the fixed help text.
    PrintHelp,
    /// End the interactive session, terminating the process with status 0,
    /// whatever arguments followed `exit`.
    Exit,
    /// Launch the named external program: the first token is the program,
    /// the whole token list is its argument vector.
    Launch(Vec<String>),
}

/// The mathematical shape of an [`Action`], over sequences of characters.
pub enum ActionModel {
    NoOp,
    ChangeDir(Seq<char>),
    PrintHelp,
    Exit,
    Launch(Seq<Seq<char>>),
}

impl Action {
    /// The model of this action: the same constructor over views.
    pub open spec fn model(&self) -> ActionModel {
        match self {
            Action::NoOp => ActionModel::NoOp,
            Action::ChangeDir(p) => ActionModel::ChangeDir(p@),
            Action::PrintHelp => ActionModel::PrintHelp,
            Action::Exit => ActionModel::Exit,
            Action::Launch(v) => ActionModel::Launch(v.deep_view()),
        }
    }
}

/// What dispatch decides for a given token sequence:
/// - no tokens: a no-op, with no error;
/// - `cd` with exactly one argument: change to that path; any other `cd`
///   arity: `InvalidInput`;
/// - `help`: print the help text, whatever the arguments;
/// - `exit`: end the session, whatever the arguments;
/// - anything else: launch it as an external program with the full token
///   list as argument vector — never an error, whatever becomes of the
///   child.
pub open spec fn dispatch_model(args: Seq<Seq<char>>) -> Result<ActionModel, DispatchError> {
    if args.len() == 0 {
        Ok(ActionModel::NoOp)
    } else {
        match builtin_of(args[0]) {
            Some(Builtin::Cd) => {
                if args.len() == 2 {
                    Ok(ActionModel::ChangeDir(args[1]))
                } else {
                    Err(DispatchError::InvalidInput)
                }
            },
            Some(Builtin::Help) => Ok(ActionModel::PrintHelp),
            Some(Builtin::Exit) => Ok(ActionModel::Exit),
            None => Ok(ActionModel::Launch(args)),
        }
    }
}

/// The model of a dispatch result.
pub open spec fn result_model(r: Result<Action, DispatchError>) -> Result<
    ActionModel,
    DispatchError,
> {
    match r {
        Ok(a) => Ok(a.model()),
        Err(e) => Err(e),
    }
}

/// Dispatches one tokenized command line: decides builtin-versus-external
/// and returns the action the loop must perform, exactly as
/// [`dispatch_model`] says.
pub fn rsh_execute(args: Vec<String>) -> (r: Result<Action, DispatchError>)
    ensures
        result_model(r) == dispatch_model(args.deep_view()),
{
    if args.len() == 0 {
        return Ok(Action::NoOp);
    }
    proof {
        assert(args.deep_view()[0] == args@[0]@);
    }
    let table = get_builtins();
    match table.resolve(args[0].as_str()) {
        Some(Builtin::Cd) => {
            match lsh_cd(&args) {
                Ok(path) => {
                    proof {
                        assert(args.deep_view()[1] == args@[1]@);
                    }
                    Ok(Action::ChangeDir(path))
                },
                Err(e) => Err(e),
            }
        },
        Some(Builtin::Help) => Ok(Action::PrintHelp),
        Some(Builtin::Exit) => Ok(Action::Exit),
        None => Ok(Action::Launch(args)),
    }
}

/// A line of nothing but whitespace (or nothing at all) dispatches to a
/// no-op: no builtin runs, no process is launched, no error is raised.
pub proof fn lemma_blank_line_no_op(s: Seq<char>)
    requires
        forall|j: int| 0 <= j < s.len() ==> is_shell_space(s[j]),
    ensures
        dispatch_model(tokenize_spec(s)) == Ok::<ActionModel, DispatchError>(ActionModel::NoOp),
{
    lemma_tokenize_all_space(s);
}

/// `cd` changes the working directory exactly when it is given exactly one
/// argument; with zero or two or more arguments it is `InvalidInput` and
/// nothing is changed.
pub proof fn lemma_cd_arity(args: Seq<Seq<char>>)
    requires
        args.len() > 0,
        args[0] == "cd"@,
    ensures
        args.len() == 2 ==> dispatch_model(args) == Ok::<ActionModel, DispatchError>(
            ActionModel::ChangeDir(args[1]),
        ),
        args.len() != 2 ==> dispatch_model(args) == Err::<ActionModel, DispatchError>(
            DispatchError::InvalidInput,
        ),
{
}

/// `help` always succeeds, whatever its arguments.
pub proof fn lemma_help_always_succeeds(args: Seq<Seq<char>>)
    requires
        args.len() > 0,
        args[0] == "help"@,
    ensures
        dispatch_model(args) == Ok::<ActionModel, DispatchError>(ActionModel::PrintHelp),
{
    reveal_strlit("cd");
    reveal_strlit("help");
    assert("cd"@.len() == 2 && "help"@.len() == 4);
    assert(args[0] != "cd"@);
    assert(builtin_of(args[0]) == Some(Builtin::Help));
}

/// `exit` ends the session whatever arguments trail it: they are ignored and
/// never make it an error.
pub proof fn lemma_exit_ignores_arguments(args: Seq<Seq<char>>)
    requires
        args.len() > 0,
        args[0] == "exit"@,
    ensures
        dispatch_model(args) == Ok::<ActionModel, DispatchError>(ActionModel::Exit),
{
    reveal_strlit("cd");
    reveal_strlit("help");
    reveal_strlit("exit");
    assert("cd"@.len() == 2 && "help"@.len() == 4 && "exit"@.len() == 4);
    assert(args[0] != "cd"@);
    assert("exit"@[0] == 'e' && "help"@[0] == 'h');
    assert(args[0] != "help"@);
    assert(builtin_of(args[0]) == Some(Builtin::Exit));
}

/// A command that is no built-in — however its launch later fares — is never
/// a dispatch error: the loop always survives it and goes on prompting.
pub proof fn lemma_external_never_errors(args: Seq<Seq<char>>)
    requires
        args.len() > 0,
        builtin_of(args[0]) is None,
    ensures
        dispatch_model(args) == Ok::<ActionModel, DispatchError>(ActionModel::Launch(args)),
{
}

/// The human-readable message the interactive loop prints for each
/// dispatcher error.
pub fn error_message(e: &DispatchError) -> (r: String)
    ensures
        *e == DispatchError::InvalidInput ==> r@ == "Invalid input"@,
        *e == DispatchError::ChangeDirectoryError ==> r@ == "Failed to change directory"@,
{
    match e {
        DispatchError::InvalidInput => "Invalid input".to_owned(),
        DispatchError::ChangeDirectoryError => "Failed to change directory".to_owned(),
    }
}

} // verus!
