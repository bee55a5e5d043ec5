//! What `require(path)` loads.
use vstd::prelude::*;

verus! {

/// Target of a `require`.
#[derive(Clone, Copy, Debug, PartialEq, Eq, Structural)]
pub enum Required {
    /// `node:fs/promises`: `{ open, access, constants }`.
    FsPromises,
    /// `node:fs`: `{ createWriteStream }`.
    Fs,
    /// A script file, evaluated once in its own context and cached by path.
    Script,
}

/// Which module `require(path)` designates.
pub fn required_module(path: &str) -> (r: Required)
    ensures
        r == if path@ == "node:fs/promises"@ {
            Required::FsPromises
        } else if path@ == "node:fs"@ {
            Required::Fs
        } else {
            Required::Script
        },
{
    let p = path.to_owned();
    if p == String::from_str("node:fs/promises") {
        Required::FsPromises
    } else if p == String::from_str("node:fs") {
        Required::Fs
    } else {
        Required::Script
    }
}

} // verus!
