//! Assets that are loaded when they are first needed.

use vstd::prelude::*;
use std::rc::Rc;

verus! {

/// An asset that may not have been loaded yet.
pub enum Loaded<T> {
    Unloaded,
    Loaded(Rc<T>),
}

impl<T> Loaded<T> {
    /// The asset, if it was loaded.
    pub fn get(&self) -> (asset: Option<&Rc<T>>)
        ensures
            match *self {
                Loaded::Unloaded => asset is None,
                Loaded::Loaded(held) => asset == Some(&held),
            },
    {
        match self {
            Loaded::Unloaded => None,
            Loaded::Loaded(held) => Some(held),
        }
    }
}

} // verus!
