//! The patcher's command line: `patcher <install folder> <process id>`.

use vstd::prelude::*;
use crate::number::{parse_usize, parse_usize_spec};
use crate::text::chars_of;

verus! {

/// What the patcher was asked to do: where to put the new spell checker, and
/// the id of the running one to end (`None` where that argument is not a
/// process id).
pub struct PatcherArgs {
    pub install_path: String,
    pub pid: Option<usize>,
}

/// Reads the patcher's arguments, the program's own name first. Anything but
/// exactly two arguments after it gives `None`: the patcher then does nothing.
pub fn patcher_args(args: &Vec<String>) -> (parsed: Option<PatcherArgs>)
    ensures
        args@.len() != 3 ==> parsed is None,
        args@.len() == 3 ==> (parsed matches Some(p) && p.install_path@ == args@[1]@ && p.pid
            == parse_usize_spec(args@[2]@)),
{
    if args.len() != 3 {
        return None;
    }
    let digits = chars_of(args[2].as_str());
    let pid = parse_usize(&digits);
    Some(PatcherArgs { install_path: args[1].clone(), pid })
}

} // verus!
