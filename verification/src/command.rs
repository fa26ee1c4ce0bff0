//! Command lines: whitespace tokenization and process outcome handling.
//!
//! The process runner executes a tokenized command line synchronously in a
//! working directory and reports what happened; launching the child process
//! is outside work, so the runner's two halves here are the tokenization
//! before the launch and the reading of the captured outcome after it.

use vstd::prelude::*;

use crate::errors::PipelineError;

verus! {

/// The whitespace that separates command-line tokens: the Unicode
/// White_Space code points, the set str::split_whitespace separates on.
pub open spec fn is_space_char(c: char) -> bool {
    ||| c == '\u{0009}'
    ||| c == '\u{000A}'
    ||| c == '\u{000B}'
    ||| c == '\u{000C}'
    ||| c == '\u{000D}'
    ||| c == '\u{0020}'
    ||| c == '\u{0085}'
    ||| c == '\u{00A0}'
    ||| c == '\u{1680}'
    ||| c == '\u{2000}'
    ||| c == '\u{2001}'
    ||| c == '\u{2002}'
    ||| c == '\u{2003}'
    ||| c == '\u{2004}'
    ||| c == '\u{2005}'
    ||| c == '\u{2006}'
    ||| c == '\u{2007}'
    ||| c == '\u{2008}'
    ||| c == '\u{2009}'
    ||| c == '\u{200A}'
    ||| c == '\u{2028}'
    ||| c == '\u{2029}'
    ||| c == '\u{202F}'
    ||| c == '\u{205F}'
    ||| c == '\u{3000}'
}

/// Whether the character is token-separating whitespace.
fn is_space(c: char) -> (r: bool)
    ensures
        r == is_space_char(c),
{
    c == '\u{0009}' || c == '\u{000A}' || c == '\u{000B}' || c == '\u{000C}' || c == '\u{000D}'
        || c == '\u{0020}' || c == '\u{0085}' || c == '\u{00A0}' || c == '\u{1680}' || (c
        >= '\u{2000}' && c <= '\u{200A}') || c == '\u{2028}' || c == '\u{2029}' || c == '\u{202F}'
        || c == '\u{205F}' || c == '\u{3000}'
}

/// No character of the token is whitespace.
pub open spec fn space_free(t: Seq<char>) -> bool {
    forall|i: int| 0 <= i < t.len() ==> !is_space_char(#[trigger] t[i])
}

/// One scan step over `(closed tokens, pending token)`: whitespace closes
/// a nonempty pending token, any other character extends it.
pub open spec fn scan_step(st: (Seq<Seq<char>>, Seq<char>), c: char) -> (Seq<Seq<char>>, Seq<
    char,
>) {
    if is_space_char(c) {
        if st.1.len() > 0 {
            (st.0.push(st.1), Seq::empty())
        } else {
            st
        }
    } else {
        (st.0, st.1.push(c))
    }
}

/// The scan state after reading the whole line.
pub open spec fn scan_line(s: Seq<char>) -> (Seq<Seq<char>>, Seq<char>) {
    s.fold_left(
        (Seq::<Seq<char>>::empty(), Seq::<char>::empty()),
        |st: (Seq<Seq<char>>, Seq<char>), c: char| scan_step(st, c),
    )
}

/// The whitespace-separated tokens of a command line.
pub open spec fn tokens_of(s: Seq<char>) -> Seq<Seq<char>> {
    let st = scan_line(s);
    if st.1.len() > 0 {
        st.0.push(st.1)
    } else {
        st.0
    }
}

/// Every scanned token is nonempty and space-free, and the scan state is
/// empty exactly when the line read so far is all whitespace.
proof fn lemma_scan_line_props(s: Seq<char>)
    ensures
        (scan_line(s).0.len() == 0 && scan_line(s).1.len() == 0) <==> (forall|i: int|
            0 <= i < s.len() ==> is_space_char(#[trigger] s[i])),
        forall|k: int|
            0 <= k < scan_line(s).0.len() ==> #[trigger] scan_line(s).0[k].len() > 0 && space_free(
                scan_line(s).0[k],
            ),
        space_free(scan_line(s).1),
    decreases s.len(),
{
    if s.len() == 0 {
    } else {
        let p = s.drop_last();
        let c = s.last();
        lemma_scan_line_props(p);
        assert(scan_line(s) == scan_step(scan_line(p), c));
        if forall|i: int| 0 <= i < s.len() ==> is_space_char(#[trigger] s[i]) {
            assert(forall|i: int| 0 <= i < p.len() ==> is_space_char(#[trigger] p[i]));
        }
        if scan_line(s).0.len() == 0 && scan_line(s).1.len() == 0 {
            assert(scan_line(p).0.len() == 0 && scan_line(p).1.len() == 0);
            assert(is_space_char(c));
            assert forall|i: int| 0 <= i < s.len() implies is_space_char(#[trigger] s[i]) by {
                if i < s.len() - 1 {
                    assert(p[i] == s[i]);
                }
            }
        }
    }
}

/// Law: a command line tokenizes to nothing exactly when it holds only
/// whitespace, and every token that does come out is nonempty and holds
/// no whitespace.
pub proof fn lemma_tokens_of_props(s: Seq<char>)
    ensures
        tokens_of(s).len() == 0 <==> (forall|i: int|
            0 <= i < s.len() ==> is_space_char(#[trigger] s[i])),
        forall|k: int|
            0 <= k < tokens_of(s).len() ==> #[trigger] tokens_of(s)[k].len() > 0 && space_free(
                tokens_of(s)[k],
            ),
{
    lemma_scan_line_props(s);
}

/// Tokenize a command line on whitespace.
pub fn tokenize(line: &str) -> (r: Vec<String>)
    ensures
        r.deep_view() == tokens_of(line@),
{
    let n = line.unicode_len();
    let mut done: Vec<String> = Vec::new();
    // The pending token is line[start..i] when `start` is set.
    let mut start: Option<usize> = None;
    let mut i: usize = 0;
    while i < n
        invariant
            i <= n,
            n == line@.len(),
            match start {
                Option::Some(st) => st < i && (done.deep_view(), line@.subrange(
                    st as int,
                    i as int,
                )) == scan_line(line@.subrange(0, i as int)),
                Option::None => (done.deep_view(), Seq::<char>::empty()) == scan_line(
                    line@.subrange(0, i as int),
                ),
            },
        decreases n - i,
    {
        let ghost p = line@.subrange(0, i as int);
        let ghost pc = line@.subrange(0, i as int + 1);
        proof {
            assert(pc.drop_last() =~= p);
            assert(pc.last() == line@[i as int]);
            assert(scan_line(pc) == scan_step(scan_line(p), line@[i as int]));
        }
        let c = line.get_char(i);
        if is_space(c) {
            match start {
                Option::Some(st) => {
                    done.push(String::from_str(line.substring_char(st, i)));
                    start = None;
                },
                Option::None => {},
            }
        } else {
            match start {
                Option::Some(st) => {
                    proof {
                        assert(line@.subrange(st as int, i as int + 1) =~= line@.subrange(
                            st as int,
                            i as int,
                        ).push(line@[i as int]));
                    }
                },
                Option::None => {
                    start = Some(i);
                    proof {
                        assert(line@.subrange(i as int, i as int + 1) =~= Seq::<
                            char,
                        >::empty().push(line@[i as int]));
                    }
                },
            }
        }
        i += 1;
    }
    proof {
        assert(line@.subrange(0, n as int) =~= line@);
    }
    match start {
        Option::Some(st) => {
            done.push(String::from_str(line.substring_char(st, n)));
        },
        Option::None => {},
    }
    done
}

/// Tokenize the configured command line, rejecting one with no tokens.
///
/// Fails with the empty-command error exactly when the line holds nothing
/// but whitespace; otherwise the first token is the program and the rest
/// are its arguments.
pub fn plan_command(line: &str) -> (r: Result<Vec<String>, PipelineError>)
    ensures
        r matches Ok(toks) ==> toks.deep_view() == tokens_of(line@) && toks@.len() > 0,
        r is Err <==> tokens_of(line@).len() == 0,
        r is Err ==> r == Err::<Vec<String>, PipelineError>(PipelineError::EmptyCommand),
{
    let toks = tokenize(line);
    if toks.len() == 0 {
        Err(PipelineError::EmptyCommand)
    } else {
        Ok(toks)
    }
}

/// What the launched process reported back.
pub enum RunOutcome {
    /// The program could not be launched at all; carries the launcher's
    /// message.
    SpawnFailed { message: String },
    /// The process ran to completion with the given status and captured
    /// output.
    Exited { success: bool, stdout: String, stderr: String },
}

/// Read a captured process outcome: captured stdout on success, the spawn
/// failure or the captured stderr of a failure exit as the error.
pub fn command_result(outcome: RunOutcome) -> (r: Result<String, PipelineError>)
    ensures
        match outcome {
            RunOutcome::SpawnFailed { message } => r == Err::<String, PipelineError>(
                PipelineError::SpawnError(message),
            ),
            RunOutcome::Exited { success, stdout, stderr } => {
                if success {
                    r == Ok::<String, PipelineError>(stdout)
                } else {
                    r == Err::<String, PipelineError>(PipelineError::NonZeroExit(stderr))
                }
            },
        },
{
    match outcome {
        RunOutcome::SpawnFailed { message } => Err(PipelineError::SpawnError(message)),
        RunOutcome::Exited { success, stdout, stderr } => {
            if success {
                Ok(stdout)
            } else {
                Err(PipelineError::NonZeroExit(stderr))
            }
        },
    }
}

} // verus!
