//! The machine service on the local host.

use crate::error::Error;
use vstd::prelude::*;

verus! {

/// The machine service on the local host, over a store of machine records.
pub struct LocalMachineService<D> {
    db: D,
}

impl<D> LocalMachineService<D> {
    /// The store of machine records.
    pub closed spec fn store(&self) -> D {
        self.db
    }

    /// Makes the service over the store that opening the default one gave, or
    /// hands on why it could not be opened.
    pub fn new(opened: Result<D, Error>) -> (service: Result<Self, Error>)
        ensures
            opened is Ok ==> service is Ok && service->Ok_0.store() == opened->Ok_0,
            opened is Err ==> service is Err && service->Err_0 == opened->Err_0,
    {
        match opened {
            Ok(db) => Ok(LocalMachineService::with_db(db)),
            Err(error) => Err(error),
        }
    }

    /// Makes the service over a store.
    pub fn with_db(db: D) -> (service: Self)
        ensures
            service.store() == db,
    {
        LocalMachineService { db }
    }

    /// The store of machine records.
    pub fn db(&self) -> (db: &D)
        ensures
            *db == self.store(),
    {
        &self.db
    }
}

} // verus!
