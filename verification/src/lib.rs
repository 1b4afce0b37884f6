//! Verified core of three shop clients and the kit they share.
use vstd::prelude::*;

pub mod text;
pub mod measure;
pub mod netkit;
pub mod kmart;
pub mod twlnz;
pub mod wwnz;

verus! {

} // verus!
