use vstd::prelude::*;

use crate::pack::first_index;
use crate::text::same_text;

verus! {

/// How the companion presents itself.
#[derive(Clone, Copy, Debug, PartialEq, Eq, Structural)]
pub enum Mode {
    Desktop,
    Terminal,
}

/// Why the command line does not name one mode.
#[derive(Clone, Copy, Debug, PartialEq, Eq, Structural)]
pub enum LaunchError {
    /// `--mode` without `desktop` or `terminal` after it.
    UnknownMode,
    /// Desktop mode asked for together with a terminal flag.
    Conflict,
}

impl LaunchError {
    pub fn message(self) -> (m: &'static str)
        ensures
            m@ == (match self {
                LaunchError::UnknownMode => "Use --mode desktop or --mode terminal"@,
                LaunchError::Conflict => "Choose one mode: desktop or terminal"@,
            }),
    {
        match self {
            LaunchError::UnknownMode => "Use --mode desktop or --mode terminal",
            LaunchError::Conflict => "Choose one mode: desktop or terminal",
        }
    }
}

pub open spec fn arg_texts(args: Seq<String>) -> Seq<Seq<char>> {
    args.map_values(|a: String| a@)
}

/// `--terminal` or `--plain` is among the arguments.
pub open spec fn wants_terminal(args: Seq<Seq<char>>) -> bool {
    args.contains("--terminal"@) || args.contains("--plain"@)
}

/// The mode the arguments ask for: `--mode desktop|terminal` (the word after the
/// first `--mode`), else terminal when `--terminal` or `--plain` is given, else
/// desktop. Desktop together with a terminal flag is a conflict.
pub open spec fn spec_mode(args: Seq<Seq<char>>) -> Result<Mode, LaunchError> {
    let at = first_index(args, "--mode"@);
    let terminal = wants_terminal(args);
    if at >= 0 && at + 1 >= args.len() {
        Err(LaunchError::UnknownMode)
    } else if at >= 0 {
        let value = args[at + 1];
        if value == "desktop"@ && terminal {
            Err(LaunchError::Conflict)
        } else if value == "desktop"@ {
            Ok(Mode::Desktop)
        } else if value == "terminal"@ {
            Ok(Mode::Terminal)
        } else {
            Err(LaunchError::UnknownMode)
        }
    } else if terminal {
        Ok(Mode::Terminal)
    } else {
        Ok(Mode::Desktop)
    }
}

fn position(args: &[String], word: &str) -> (r: Option<usize>)
    ensures
        match r {
            Some(i) => i == first_index(arg_texts(args@), word@) && i < args@.len(),
            None => first_index(arg_texts(args@), word@) == -1,
        },
{
    let ghost texts = arg_texts(args@);
    let mut i: usize = 0;
    proof {
        assert(texts.take(0) =~= Seq::<Seq<char>>::empty());
    }
    while i < args.len()
        invariant
            texts == arg_texts(args@),
            texts.len() == args@.len(),
            i <= args@.len(),
            first_index(texts.take(i as int), word@) == -1,
        decreases args@.len() - i,
    {
        proof {
            crate::pack::lemma_first_index_step(texts, word@, i as int);
        }
        if same_text(args[i].as_str(), word) {
            proof {
                crate::pack::lemma_first_index_prefix(texts, word@, i + 1);
            }
            return Some(i);
        }
        i = i + 1;
    }
    proof {
        assert(texts.take(texts.len() as int) =~= texts);
    }
    None
}

fn present(args: &[String], word: &str) -> (r: bool)
    ensures
        r == arg_texts(args@).contains(word@),
{
    let found = position(args, word);
    proof {
        crate::pack::lemma_first_index_range(arg_texts(args@), word@);
        if arg_texts(args@).contains(word@) {
            let k = choose|k: int| 0 <= k < arg_texts(args@).len() && arg_texts(args@)[k] == word@;
            assert(arg_texts(args@)[k] == word@);
        }
    }
    found.is_some()
}

/// Chooses desktop or terminal mode from the command-line arguments.
pub fn mode(args: &[String]) -> (r: Result<Mode, LaunchError>)
    ensures
        r == spec_mode(arg_texts(args@)),
{
    let terminal = present(args, "--terminal") || present(args, "--plain");
    match position(args, "--mode") {
        Some(i) => {
            if i >= args.len() - 1 {
                return Err(LaunchError::UnknownMode);
            }
            let value = args[i + 1].as_str();
            if same_text(value, "desktop") {
                if terminal {
                    Err(LaunchError::Conflict)
                } else {
                    Ok(Mode::Desktop)
                }
            } else if same_text(value, "terminal") {
                Ok(Mode::Terminal)
            } else {
                Err(LaunchError::UnknownMode)
            }
        },
        None => if terminal {
            Ok(Mode::Terminal)
        } else {
            Ok(Mode::Desktop)
        },
    }
}

} // verus!
