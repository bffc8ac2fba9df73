//! The download client's command line.
use vstd::prelude::*;
use vstd::string::*;

verus! {

/// The arguments the download client gets: skip its confirmation dialog,
/// then the magnet link. The save directory is not passed.
pub fn client_args(magnet: &str) -> (r: Vec<String>)
    ensures
        r@.len() == 2,
        r@[0]@ == "--skip-dialog"@,
        r@[1]@ == magnet@,
{
    let mut args: Vec<String> = Vec::new();
    args.push(String::from_str("--skip-dialog"));
    args.push(String::from_str(magnet));
    args
}

} // verus!
