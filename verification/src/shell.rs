//! The prompt loop's logic: splitting an input line into whitespace-separated
//! tokens and dispatching the first token to its command.
use vstd::prelude::*;
use vstd::string::StrSliceExecFns;
use vstd::string::StringExecFns;
use crate::command::{
    join_spaces, list_request_matches, Action, Command, CommandResult, Exit, List, Print,
};
use crate::text::{eq_lit, seqs_of, white_space};

verus! {

/// The tokens of `s` from index `i` on, with `cur` the part of the current
/// token read so far: maximal runs of non-whitespace characters, in order.
pub open spec fn tokens_rec(s: Seq<char>, i: int, cur: Seq<char>) -> Seq<Seq<char>>
    decreases s.len() - i,
{
    if i < 0 || i >= s.len() {
        if cur.len() == 0 {
            Seq::empty()
        } else {
            seq![cur]
        }
    } else if white_space(s[i]) {
        if cur.len() == 0 {
            tokens_rec(s, i + 1, Seq::empty())
        } else {
            seq![cur] + tokens_rec(s, i + 1, Seq::empty())
        }
    } else {
        tokens_rec(s, i + 1, cur.push(s[i]))
    }
}

/// The whitespace-separated tokens of `s`, in order.
pub open spec fn tokens_of(s: Seq<char>) -> Seq<Seq<char>> {
    tokens_rec(s, 0, Seq::empty())
}

/// A well-formed token: nonempty, with no whitespace character in it.
pub open spec fn clean_token(t: Seq<char>) -> bool {
    t.len() > 0 && forall|j: int| 0 <= j < t.len() ==> !white_space(t[j])
}

/// Every token of `ts` is well-formed.
pub open spec fn clean_tokens(ts: Seq<Seq<char>>) -> bool {
    forall|k: int| 0 <= k < ts.len() ==> clean_token(#[trigger] ts[k])
}

proof fn lemma_tokens_rec_clean(s: Seq<char>, i: int, cur: Seq<char>)
    requires
        forall|j: int| 0 <= j < cur.len() ==> !white_space(cur[j]),
    ensures
        clean_tokens(tokens_rec(s, i, cur)),
    decreases s.len() - i,
{
    if i < 0 || i >= s.len() {
        if cur.len() > 0 {
            let all = seq![cur];
            assert(tokens_rec(s, i, cur) == all);
            assert forall|k: int| 0 <= k < all.len() implies clean_token(#[trigger] all[k]) by {
                assert(all[k] == cur);
            }
        }
    } else if white_space(s[i]) {
        lemma_tokens_rec_clean(s, i + 1, Seq::empty());
        if cur.len() > 0 {
            let rest = tokens_rec(s, i + 1, Seq::<char>::empty());
            let all = seq![cur] + rest;
            assert(tokens_rec(s, i, cur) == all);
            assert forall|k: int| 0 <= k < all.len() implies clean_token(#[trigger] all[k]) by {
                if k == 0 {
                    assert(all[k] == cur);
                } else {
                    assert(all[k] == rest[k - 1]);
                }
            }
        }
    } else {
        let grown = cur.push(s[i]);
        assert forall|j: int| 0 <= j < grown.len() implies !white_space(#[trigger] grown[j]) by {
            if j < cur.len() {
                assert(grown[j] == cur[j]);
            } else {
                assert(grown[j] == s[i]);
            }
        }
        lemma_tokens_rec_clean(s, i + 1, grown);
    }
}

/// Splitting on whitespace leaves no whitespace behind: every token of a
/// line is nonempty, and no character of a token has the `White_Space`
/// property.
pub proof fn lemma_tokens_clean(s: Seq<char>)
    ensures
        clean_tokens(tokens_of(s)),
{
    lemma_tokens_rec_clean(s, 0, Seq::empty());
}

/// The input line split into whitespace-separated tokens.
pub fn tokenize(line: &String) -> (r: Vec<String>)
    ensures
        seqs_of(r@) == tokens_of(line@),
{
    let s: &str = line.as_str();
    let n: usize = s.unicode_len();
    let mut out: Vec<String> = Vec::new();
    let mut cur = String::new();
    let mut i: usize = 0;
    proof {
        assert(seqs_of(out@) =~= Seq::<Seq<char>>::empty());
        assert(seqs_of(out@) + tokens_rec(line@, 0, cur@) =~= tokens_of(line@));
    }
    while i < n
        invariant
            s@ == line@,
            n == line@.len(),
            i <= n,
            seqs_of(out@) + tokens_rec(line@, i as int, cur@) == tokens_of(line@),
        decreases n - i,
    {
        let ghost out0 = out@;
        let ghost cur0 = cur@;
        let c: char = s.get_char(i);
        if c.is_whitespace() {
            if !cur.as_str().is_empty() {
                out.push(cur);
                cur = String::new();
                proof {
                    assert(seqs_of(out@) =~= seqs_of(out0) + seq![cur0]);
                }
            } else {
                proof {
                    assert(cur@ =~= Seq::<char>::empty());
                }
            }
        } else {
            let piece: &str = s.substring_char(i, i + 1);
            cur.append(piece);
            proof {
                assert(cur@ =~= cur0.push(line@[i as int]));
            }
        }
        proof {
            assert(seqs_of(out@) + tokens_rec(line@, i as int + 1, cur@) =~= tokens_of(
                line@,
            ));
        }
        i += 1;
    }
    if !cur.as_str().is_empty() {
        let ghost out0 = out@;
        let ghost cur0 = cur@;
        out.push(cur);
        proof {
            assert(seqs_of(out@) =~= seqs_of(out0) + seq![cur0]);
        }
    } else {
        proof {
            assert(cur@ =~= Seq::<char>::empty());
        }
    }
    proof {
        assert(seqs_of(out@) =~= tokens_of(line@));
    }
    out
}

/// The message printed for an unrecognized command name.
pub fn not_found_message(name: &String) -> (r: String)
    ensures
        r@ == name@ + ": command not found"@,
{
    let mut r: String = name.clone();
    r.append(": command not found");
    r
}

/// What one line of input leads to: an unknown command's message, or a
/// command's result.
pub enum Dispatch {
    /// The first token named no command; the payload is the message to print.
    NotFound(String),
    /// The named command ran on the remaining tokens.
    Executed(CommandResult),
}

/// Whether `r` is what dispatching the token list `parts` yields: the first
/// token picks the command, the remaining tokens are its arguments, and an
/// unknown name yields its not-found message.
pub open spec fn dispatch_matches(r: Dispatch, parts: Seq<Seq<char>>) -> bool {
    let name = parts[0];
    let args = parts.drop_first();
    if name == "exit"@ {
        r matches Dispatch::Executed(Ok(Action::Terminate))
    } else if name == "print"@ {
        r matches Dispatch::Executed(Ok(Action::Output(s))) && s@ == join_spaces(args)
    } else if name == "ls"@ {
        r matches Dispatch::Executed(Ok(Action::ListDirectory(req))) && list_request_matches(
            req,
            args,
        )
    } else {
        r matches Dispatch::NotFound(m) && m@ == name + ": command not found"@
    }
}

/// The tokens after the first, as the argument list handed to a command.
fn tail(parts: &Vec<String>) -> (r: Vec<String>)
    requires
        parts@.len() >= 1,
    ensures
        r@.len() == parts@.len() - 1,
        seqs_of(r@) == seqs_of(parts@).drop_first(),
{
    let mut r: Vec<String> = Vec::new();
    let mut i: usize = 1;
    while i < parts.len()
        invariant
            1 <= i <= parts@.len(),
            r@.len() == i - 1,
            forall|j: int| 0 <= j < r@.len() ==> r@[j]@ == parts@[j + 1]@,
        decreases parts@.len() - i,
    {
        r.push(parts[i].clone());
        i += 1;
    }
    proof {
        assert(seqs_of(r@) =~= seqs_of(parts@).drop_first());
    }
    r
}

/// Dispatches a tokenized line: the first token names the command, the rest
/// are its arguments.
pub fn dispatch(parts: &Vec<String>) -> (r: Dispatch)
    requires
        parts@.len() > 0,
    ensures
        dispatch_matches(r, seqs_of(parts@)),
{
    let name = &parts[0];
    if eq_lit(name, "exit") {
        Dispatch::Executed(Exit.execute(&tail(parts)))
    } else if eq_lit(name, "print") {
        Dispatch::Executed(Print.execute(&tail(parts)))
    } else if eq_lit(name, "ls") {
        Dispatch::Executed(List.execute(&tail(parts)))
    } else {
        Dispatch::NotFound(not_found_message(name))
    }
}

} // verus!
