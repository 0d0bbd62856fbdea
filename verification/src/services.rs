//! The services capability: an opaque, externally supplied resource bag made
//! available to every system. The core never looks inside it.

use vstd::prelude::*;

verus! {

/// Marks the schema's services aggregate. The core treats it as a plain
/// injected value and threads it, mutably, through every lifecycle hook and
/// processing pass.
pub trait ServiceManager: 'static {

}

impl ServiceManager for () {

}

} // verus!
