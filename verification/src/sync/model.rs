//! Common traits of the synced entities.

use vstd::prelude::*;
use crate::config::collections::Collection;

verus! {

/// Common trait for all sync models.
///
/// Every model has a unique identifier and a timestamp for conflict
/// resolution during sync operations.
pub trait Model {
    /// The unique identifier of this model.
    spec fn spec_id(&self) -> i64;

    /// The last update timestamp of this model.
    spec fn spec_updated_at(&self) -> i64;

    /// Get the unique identifier for this model
    fn get_id(&self) -> (r: i64)
        ensures
            r == self.spec_id(),
    ;

    /// Get the last update timestamp for conflict resolution.
    ///
    /// The server only overwrites existing data if the incoming
    /// updated_at is greater than the stored value.
    fn get_updated_at(&self) -> (r: i64)
        ensures
            r == self.spec_updated_at(),
    ;
}

/// Types that can be synchronized via the sync API, each stored in its own
/// collection.
pub trait Syncable: Model {
    /// The collection where this entity is stored.
    spec fn spec_collection() -> Collection;

    /// The collection where this entity is stored.
    fn collection() -> (c: Collection)
        ensures
            c == Self::spec_collection(),
    ;
}

/// The IDs of a sequence of models, in order.
pub open spec fn model_ids<T: Model>(items: Seq<T>) -> Seq<i64> {
    items.map_values(|t: T| t.spec_id())
}

} // verus!
