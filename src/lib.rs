use vstd::prelude::*;

pub mod laws;
pub mod permission;
pub mod provision;
pub mod record;
pub mod request;
pub mod route;

verus! {

} // verus!
