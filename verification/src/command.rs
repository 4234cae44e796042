//! The built-in commands and what each one computes from its arguments.
//!
//! A command turns its argument list into an [`Action`]; carrying the action
//! out (terminating the process, printing, reading a directory) is left to
//! the caller.
use vstd::prelude::*;
use vstd::string::StringExecFns;
use crate::text::{contains_char, seqs_of, starts_with_char};

verus! {

pub type CommandError = String;

/// What the `ls` command asks for: a directory and the two flags.
pub struct ListRequest {
    pub path: String,
    pub show_hidden: bool,
    pub recursive: bool,
}

/// What a command asks its caller to do.
pub enum Action {
    /// Terminate the process with status 0.
    Terminate,
    /// Print the line.
    Output(String),
    /// List a directory.
    ListDirectory(ListRequest),
}

pub type CommandResult = Result<Action, CommandError>;

/// Whether `arg` starts with a dash.
pub open spec fn dash_prefixed(arg: Seq<char>) -> bool {
    arg.len() > 0 && arg[0] == '-'
}

/// Whether `arg` is a flag argument that carries the letter `c`.
pub open spec fn is_flag(arg: Seq<char>, c: char) -> bool {
    dash_prefixed(arg) && arg.contains(c)
}

/// Whether some argument is a flag argument carrying the letter `c`.
pub open spec fn has_flag(args: Seq<Seq<char>>, c: char) -> bool {
    exists|i: int| 0 <= i < args.len() && is_flag(args[i], c)
}

/// The first argument that does not start with a dash, if any.
pub open spec fn first_non_flag(args: Seq<Seq<char>>) -> Option<Seq<char>>
    decreases args.len(),
{
    if args.len() == 0 {
        None
    } else if !dash_prefixed(args[0]) {
        Some(args[0])
    } else {
        first_non_flag(args.drop_first())
    }
}

/// The arguments joined by single spaces.
pub open spec fn join_spaces(args: Seq<Seq<char>>) -> Seq<char>
    decreases args.len(),
{
    if args.len() == 0 {
        Seq::empty()
    } else if args.len() == 1 {
        args[0]
    } else {
        args[0] + seq![' '] + join_spaces(args.drop_first())
    }
}

/// Whether `req` is the request that the argument list `args` describes:
/// `-a`-style flags set the two booleans, and the first non-flag argument
/// is the path, defaulting to the current directory.
pub open spec fn list_request_matches(req: ListRequest, args: Seq<Seq<char>>) -> bool {
    &&& req.show_hidden == has_flag(args, 'a')
    &&& req.recursive == has_flag(args, 'r')
    &&& req.path@ == (match first_non_flag(args) {
        Some(p) => p,
        None => "."@,
    })
}

/// A named, fixed handler invoked with a list of string arguments.
pub trait Command {
    fn execute(&self, args: &Vec<String>) -> (r: CommandResult);
}

/// Whether some argument in the vector is a flag argument carrying `c`.
pub fn find_flag(args: &Vec<String>, c: char) -> (r: bool)
    ensures
        r == has_flag(seqs_of(args@), c),
{
    let mut i: usize = 0;
    while i < args.len()
        invariant
            i <= args@.len(),
            forall|j: int| 0 <= j < i ==> !is_flag(seqs_of(args@)[j], c),
        decreases args@.len() - i,
    {
        if starts_with_char(&args[i], '-') && contains_char(&args[i], c) {
            proof {
                assert(is_flag(seqs_of(args@)[i as int], c));
            }
            return true;
        }
        i += 1;
    }
    false
}

/// The first argument in the vector that does not start with a dash, if any.
pub fn find_path_arg(args: &Vec<String>) -> (r: Option<String>)
    ensures
        (match first_non_flag(seqs_of(args@)) {
            Some(p) => r matches Some(q) && q@ == p,
            None => r is None,
        }),
{
    let mut i: usize = 0;
    proof {
        assert(seqs_of(args@).skip(0) =~= seqs_of(args@));
    }
    while i < args.len()
        invariant
            i <= args@.len(),
            first_non_flag(seqs_of(args@)) == first_non_flag(seqs_of(args@).skip(i as int)),
        decreases args@.len() - i,
    {
        if !starts_with_char(&args[i], '-') {
            return Some(args[i].clone());
        }
        proof {
            assert(seqs_of(args@).skip(i as int).drop_first() =~= seqs_of(args@).skip(
                i as int + 1,
            ));
        }
        i += 1;
    }
    None
}

/// The arguments joined by single spaces, as one line of output.
pub fn join_args(args: &Vec<String>) -> (r: String)
    ensures
        r@ == join_spaces(seqs_of(args@)),
{
    let mut out = String::new();
    let mut i: usize = 0;
    proof {
        assert(seqs_of(args@).skip(0) =~= seqs_of(args@));
        assert(out@ + join_spaces(seqs_of(args@)) =~= join_spaces(seqs_of(args@)));
    }
    while i < args.len()
        invariant
            i <= args@.len(),
            out@ + join_spaces(seqs_of(args@).skip(i as int)) == join_spaces(seqs_of(args@)),
        decreases args@.len() - i,
    {
        out.append(args[i].as_str());
        if i + 1 < args.len() {
            out.append(" ");
        }
        proof {
            reveal_strlit(" ");
            assert(" "@ =~= seq![' ']);
            assert(seqs_of(args@).skip(i as int).drop_first() =~= seqs_of(args@).skip(
                i as int + 1,
            ));
            assert(out@ + join_spaces(seqs_of(args@).skip(i as int + 1)) =~= join_spaces(
                seqs_of(args@),
            ));
        }
        i += 1;
    }
    proof {
        assert(out@ =~= join_spaces(seqs_of(args@)));
    }
    out
}

/// Terminates the session.
pub struct Exit;

impl Command for Exit {
    fn execute(&self, args: &Vec<String>) -> (r: CommandResult)
        ensures
            r matches Ok(Action::Terminate),
    {
        Ok(Action::Terminate)
    }
}

/// Echoes its arguments joined by spaces.
pub struct Print;

impl Command for Print {
    fn execute(&self, args: &Vec<String>) -> (r: CommandResult)
        ensures
            r matches Ok(Action::Output(s)) && s@ == join_spaces(seqs_of(args@)),
    {
        Ok(Action::Output(join_args(args)))
    }
}

/// Lists directory entries, with flags for hidden files and recursion.
pub struct List;

impl Command for List {
    fn execute(&self, args: &Vec<String>) -> (r: CommandResult)
        ensures
            r matches Ok(Action::ListDirectory(req)) && list_request_matches(req, seqs_of(args@)),
    {
        let show_hidden = find_flag(args, 'a');
        let recursive = find_flag(args, 'r');
        let path: String = match find_path_arg(args) {
            Some(p) => p,
            None => String::from_str("."),
        };
        Ok(Action::ListDirectory(ListRequest { path, show_hidden, recursive }))
    }
}

} // verus!
