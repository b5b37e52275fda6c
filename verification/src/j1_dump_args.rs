//! The settings of the memory-dump driver: image, optional preconditioning
//! script, and the byte address window to dump. The window must satisfy
//! `start <= end <= 0x2000`; the checked constructor rejects anything else.

use vstd::prelude::*;

verus! {

/// Settings for a memory dump run.
#[derive(Debug)]
pub struct J1DumpArgs {
    pub bin_file_name: String,
    pub script_file_name: String,
    pub addr_start: u16,
    pub addr_end: u16,
}

/// The dump window is ordered and stays below the compiled image area.
pub open spec fn spec_addrs_valid(addr_start: u16, addr_end: u16) -> bool {
    addr_start <= addr_end && addr_end <= 0x2000
}

impl J1DumpArgs {
    /// Bundle the parsed settings when the address window is valid; an
    /// unordered window or one past `0x2000` is rejected.
    pub fn checked(
        bin_file_name: String,
        script_file_name: String,
        addr_start: u16,
        addr_end: u16,
    ) -> (r: Option<J1DumpArgs>)
        ensures
            spec_addrs_valid(addr_start, addr_end) ==> match r {
                Some(a) => a.bin_file_name@ == bin_file_name@ && a.script_file_name@
                    == script_file_name@ && a.addr_start == addr_start && a.addr_end == addr_end,
                None => false,
            },
            !spec_addrs_valid(addr_start, addr_end) ==> r is None,
    {
        if addr_start > addr_end || addr_end > 0x2000 {
            None
        } else {
            Some(J1DumpArgs { bin_file_name, script_file_name, addr_start, addr_end })
        }
    }
}

} // verus!
