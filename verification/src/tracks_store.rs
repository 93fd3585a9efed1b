//! The store of the tracks of one side of a connection.

use std::marker::PhantomData;
use vstd::prelude::*;

verus! {

/// Store of tracks of the kind `T`, local or remote.
///
/// The store itself is kept where the tracks are. A value of this type only
/// says which kind of track a store holds.
#[derive(Debug)]
pub struct TracksStore<T>(pub PhantomData<T>);

} // verus!
