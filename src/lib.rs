use vstd::prelude::*;

pub mod command;
pub mod config;
pub mod locate;
pub mod settings;
pub mod supervisor;
pub mod text;

verus! {

} // verus!
