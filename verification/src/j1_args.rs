//! The settings the emulator driver runs with: which image to boot, which
//! script to feed it, and whether to stay in the interactive shell. The
//! driver parses its command line and hands the plain values in here.

use vstd::prelude::*;

verus! {

/// Settings for a plain emulator run.
#[derive(Debug)]
pub struct J1Args {
    pub bin_file_name: String,
    pub script_file_name: String,
    pub repl: bool,
}

impl J1Args {
    /// Bundle the parsed settings.
    pub fn new(bin_file_name: String, script_file_name: String, repl: bool) -> (r: J1Args)
        ensures
            r.bin_file_name@ == bin_file_name@,
            r.script_file_name@ == script_file_name@,
            r.repl == repl,
    {
        J1Args { bin_file_name, script_file_name, repl }
    }
}

} // verus!
