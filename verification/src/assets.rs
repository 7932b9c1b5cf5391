//! Where the bar looks for its configuration and assets.
use crate::text::str_eq;
use vstd::prelude::*;

verus! {

/// The directory, under the home directory, that holds the configuration and its assets.
pub fn config_dir() -> (dir: &'static str)
    ensures
        dir@ == ".config/hitokage/"@,
{
    ".config/hitokage/"
}

/// The example directory used in development, chosen by the `HITOKAGE_DEV_USE_EXAMPLE`
/// variable: `minimal` and `testbench` pick their example, anything else (or no variable)
/// the test bench.
pub open spec fn example_dir_of(choice: Option<Seq<char>>) -> Seq<char> {
    match choice {
        Some(c) => if c == "minimal"@ {
            "./examples/minimal/"@
        } else if c == "testbench"@ {
            "./examples/"@
        } else {
            "./examples/testbench/"@
        },
        None => "./examples/testbench/"@,
    }
}

/// Whether the variable named an example that exists.
pub open spec fn known_example(choice: Seq<char>) -> bool {
    choice == "minimal"@ || choice == "testbench"@
}

/// The example directory for the value of `HITOKAGE_DEV_USE_EXAMPLE`, `None` where it is
/// not set (or not Unicode).
pub fn example_dir(choice: Option<&str>) -> (dir: &'static str)
    ensures
        dir@ == example_dir_of(
            match choice {
                Some(c) => Some(c@),
                None => None,
            },
        ),
{
    match choice {
        Some(c) => {
            if str_eq(c, "minimal") {
                "./examples/minimal/"
            } else if str_eq(c, "testbench") {
                "./examples/"
            } else {
                "./examples/testbench/"
            }
        },
        None => "./examples/testbench/",
    }
}

/// Whether `choice` names an example; an unknown one is reported as unsupported.
pub fn is_known_example(choice: &str) -> (known: bool)
    ensures
        known == known_example(choice@),
{
    str_eq(choice, "minimal") || str_eq(choice, "testbench")
}

} // verus!
