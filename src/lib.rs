use vstd::prelude::*;

pub mod app;
pub mod component;
pub mod grep;
pub mod key;
pub mod layout;
pub mod text;

verus! {

} // verus!
