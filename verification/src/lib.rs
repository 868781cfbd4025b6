pub mod ast;
pub mod checkfloat;
pub mod checkstartfunc;
pub mod config;
pub mod deployer;
pub mod dropsection;
pub mod encode;
pub mod imports;
pub mod instr;
pub mod leb128;
pub mod pipeline;
pub mod remapimports;
pub mod remapstart;
pub mod renumber;
pub mod repack;
pub mod snip;
pub mod trimexports;
pub mod trimstartfunc;
pub mod verifyexports;
pub mod verifyimports;
use vstd::prelude::*;

verus! {

/// Error raised from inside a pass: either the pass cannot do what was
/// asked of it in this form, or a structural prerequisite is missing.
#[derive(Clone, Copy, Debug, PartialEq, Eq, Structural)]
pub enum ModuleError {
    NotSupported,
    NotFound,
}

} // verus!
