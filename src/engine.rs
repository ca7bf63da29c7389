//! The engines that the account may use.
use vstd::prelude::*;

verus! {

/// The path that lists the engines.
pub const LIST_PATH: &'static str = "/engines/list";

/// An engine available to the account.
#[derive(Debug)]
pub struct Engine {
    pub description: String,
    pub id: String,
    pub name: String,
    /// The kind of the engine, as the API names it (`PICTURE`, ...).
    pub engine_type: String,
}

} // verus!
