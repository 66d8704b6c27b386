//! The command line: one program, two ways to run it.

use vstd::prelude::*;

verus! {

/// The source file that a load reads.
pub const SEED_FILE: &'static str = "./data/nlem_2567.csv";

/// The address on which the server listens.
pub const LISTEN_ADDRESS: &'static str = "0.0.0.0:3000";

/// What an invocation of the program is to do.
#[derive(Clone, Copy, Debug, PartialEq, Eq, Structural)]
pub enum RunMode {
    /// Load the source file into the store, then exit.
    Seed,
    /// Serve requests until the process ends.
    Serve,
}

/// Whether the arguments ask for a load: they do when the first one after the
/// program's name is the word `seed`.
pub open spec fn asks_for_seed(args: Seq<String>) -> bool {
    args.len() > 1 && args[1]@ == "seed"@
}

/// Reads the run mode off the arguments, the program's name included as the
/// first of them. Anything but `seed` in the second place starts the server.
pub fn run_mode(args: &Vec<String>) -> (mode: RunMode)
    ensures
        mode == if asks_for_seed(args@) {
            RunMode::Seed
        } else {
            RunMode::Serve
        },
{
    if args.len() > 1 {
        let seed = String::from_str("seed");
        if args[1] == seed {
            return RunMode::Seed;
        }
    }
    RunMode::Serve
}

} // verus!
