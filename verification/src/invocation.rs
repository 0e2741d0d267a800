//! Whether a command line asks for the restack machine protocol, so that even a usage
//! error is reported as a machine error.

use vstd::prelude::*;

use crate::text_compare::{same_text, starts_with_text};

verus! {

/// Scans the arguments from position `i`: `--config` skips its value, `--config=…` is
/// skipped, `restack` is the answer, and any other word that is not an option ends the
/// scan without one.
pub open spec fn restack_from(arguments: Seq<Seq<char>>, i: int) -> bool
    decreases arguments.len() - i,
{
    if i < 0 || i >= arguments.len() {
        false
    } else if arguments[i] == "--config"@ {
        if i + 2 <= arguments.len() {
            restack_from(arguments, i + 2)
        } else {
            false
        }
    } else if arguments[i].len() >= 9 && arguments[i].subrange(0, 9) == "--config="@ {
        restack_from(arguments, i + 1)
    } else if arguments[i] == "restack"@ {
        true
    } else if !(arguments[i].len() >= 1 && arguments[i].subrange(0, 1) == "-"@) {
        false
    } else {
        restack_from(arguments, i + 1)
    }
}

/// Whether the arguments after the program name invoke `restack`: the first word that is
/// not an option (nor the value of `--config`) is `restack`.
pub fn is_restack_invocation(arguments: &Vec<String>) -> (restack: bool)
    ensures
        restack == restack_from(arguments@.map_values(|a: String| a@), 0),
{
    let ghost words = arguments@.map_values(|a: String| a@);
    let mut i: usize = 0;
    while i < arguments.len()
        invariant
            words == arguments@.map_values(|a: String| a@),
            restack_from(words, 0) == restack_from(words, i as int),
        decreases arguments.len() - i,
    {
        let argument = arguments[i].as_str();
        let ghost at = i as int;
        proof {
            reveal_strlit("--config=");
            reveal_strlit("-");
            assert(words[at] == argument@);
            assert(words.len() == arguments@.len());
        }
        if same_text(argument, "--config") {
            if i + 1 >= arguments.len() {
                return false;
            }
            i = i + 2;
        } else if starts_with_text(argument, "--config=") {
            i = i + 1;
        } else if same_text(argument, "restack") {
            return true;
        } else if !starts_with_text(argument, "-") {
            return false;
        } else {
            i = i + 1;
        }
    }
    false
}

} // verus!
