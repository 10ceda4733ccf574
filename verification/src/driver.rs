//! A driver behind a window of allowed hours.

use crate::window::InferenceWindowConfig;
use std::sync::{Arc, RwLock};
use vstd::prelude::*;

verus! {

/// `std::sync::RwLock`, behind which a configuration can be changed while
/// requests wait. Nothing in this library locks one.
#[verifier::external_type_specification]
#[verifier::external_body]
#[verifier::reject_recursive_types(T)]
pub struct ExRwLock<T: ?Sized>(RwLock<T>);

/// A wrapper driver that intercepts completion requests and pauses/sleeps
/// until the allowed hours window starts if currently outside.
pub struct TimeWindowedDriver<D: ?Sized> {
    pub inner: Arc<D>,
    pub window_config: Arc<RwLock<InferenceWindowConfig>>,
}

impl<D: ?Sized> TimeWindowedDriver<D> {
    pub fn new(inner: Arc<D>, window_config: Arc<RwLock<InferenceWindowConfig>>) -> (driver: Self)
        ensures
            driver.inner == inner,
            driver.window_config == window_config,
    {
        Self { inner, window_config }
    }
}

} // verus!
