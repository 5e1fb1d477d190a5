use vstd::prelude::*;

verus! {

/// The types of cache that can be associated with an element or a layer
#[derive(Copy, Clone, PartialEq, Eq, Hash, Debug, Structural)]
pub enum CacheType {
    /// The layer rendered as an onion skin
    OnionSkinLayer,
}

} // verus!
