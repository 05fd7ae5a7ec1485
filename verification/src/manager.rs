//! The storage handle, set up once and passed to every data access.

use sqlx::Error as DriverError;
use vstd::prelude::*;

use crate::error::{tells, Error};

verus! {

/// Holds the handle of the store's pool. The model layer never looks into
/// it: a request carries it to whoever runs the statement.
#[derive(Clone)]
pub struct ModelManager<D> {
    db: D,
}

impl<D> ModelManager<D> {
    /// The handle that was given when the manager was made.
    pub closed spec fn handle(&self) -> D {
        self.db
    }

    /// The manager for a pool that was opened, or `PoolInit` where the
    /// opening failed: without a pool there is no manager.
    pub fn new(opened: Result<D, DriverError>) -> (out: Result<ModelManager<D>, Error>)
        ensures
            match opened {
                Ok(db) => out is Ok && out->Ok_0.handle() == db,
                Err(e) => out matches Err(Error::PoolInit(detail)) && tells(detail, &e),
            },
    {
        match opened {
            Ok(db) => Ok(ModelManager { db }),
            Err(e) => Err(Error::from_pool(&e)),
        }
    }

    /// The handle, for the model layer's requests.
    pub fn db(&self) -> (db: &D)
        ensures
            *db == self.handle(),
    {
        &self.db
    }
}

} // verus!
