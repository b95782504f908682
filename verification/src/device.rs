//! What a device registry is made of: the connection backend, the storage, the device model and
//! the way its state is first fetched.

use vstd::prelude::*;

verus! {

/// Finds and connects to devices of one model. `B` is the connection backend, `D` the storage
/// of custom profiles, `M` the device model and `F` what fetches the state of a freshly
/// connected device.
pub struct SoundcoreDeviceRegistry<B, D, M, F> {
    backend: B,
    database: D,
    device_model: M,
    fetch_state: F,
}

impl<B, D, M, F> SoundcoreDeviceRegistry<B, D, M, F> {
    pub closed spec fn spec_backend(&self) -> B {
        self.backend
    }

    pub closed spec fn spec_database(&self) -> D {
        self.database
    }

    pub closed spec fn spec_device_model(&self) -> M {
        self.device_model
    }

    pub closed spec fn spec_fetch_state(&self) -> F {
        self.fetch_state
    }

    pub fn new(backend: B, database: D, device_model: M, fetch_state: F) -> (r: Self)
        ensures
            r.spec_backend() == backend,
            r.spec_database() == database,
            r.spec_device_model() == device_model,
            r.spec_fetch_state() == fetch_state,
    {
        SoundcoreDeviceRegistry { backend, database, device_model, fetch_state }
    }

    pub fn backend(&self) -> (r: &B)
        ensures
            *r == self.spec_backend(),
    {
        &self.backend
    }

    pub fn database(&self) -> (r: &D)
        ensures
            *r == self.spec_database(),
    {
        &self.database
    }

    pub fn device_model(&self) -> (r: &M)
        ensures
            *r == self.spec_device_model(),
    {
        &self.device_model
    }

    pub fn fetch_state(&self) -> (r: &F)
        ensures
            *r == self.spec_fetch_state(),
    {
        &self.fetch_state
    }
}

} // verus!
