use vstd::prelude::*;

use std::collections::HashMap;

use crate::errors::BrokerError;
use crate::errors::CallResult;

verus! {

broadcast use vstd::std_specs::hash::group_hash_axioms;

/// Write side of a broker: publish an endpoint under an identifier, or
/// withdraw one. The implementing type's view is its registry table.
pub trait Registrar<T>: View<V = Map<u64, T>> {
    /// Associates `id` with `sender`. A prior endpoint registered under `id`
    /// is displaced and handed back as `Ok(Some(prior))`; otherwise the call
    /// returns `Ok(None)`. Registration never fails.
    fn reg_sender(&mut self, id: u64, sender: T) -> (r: CallResult<T>)
        ensures
            final(self)@ == old(self)@.insert(id, sender),
            old(self)@.contains_key(id) ==> r == Ok::<Option<T>, BrokerError>(
                Some(old(self)@[id]),
            ),
            !old(self)@.contains_key(id) ==> r == Ok::<Option<T>, BrokerError>(None),
    ;

    /// Removes the registration under `id` and returns its endpoint. Fails
    /// with `NotFound` exactly when `id` has no current registration, and
    /// then leaves the table as it was.
    fn unreg_sender(&mut self, id: u64) -> (r: CallResult<T>)
        ensures
            final(self)@ == old(self)@.remove(id),
            old(self)@.contains_key(id) ==> r == Ok::<Option<T>, BrokerError>(
                Some(old(self)@[id]),
            ),
            !old(self)@.contains_key(id) ==> r == Err::<Option<T>, BrokerError>(
                BrokerError::NotFound,
            ),
    ;
}

/// Read side of a broker: resolve an identifier to the registered endpoint.
/// The implementing type's view is its registry table.
pub trait Finder<T>: View<V = Map<u64, T>> {
    /// Returns a borrow of the endpoint currently registered under `id`,
    /// leaving the registration in place; a caller wanting its own handle
    /// duplicates the endpoint. Fails with `NotFound` exactly when `id` has
    /// no current registration.
    fn find_sender(&self, id: u64) -> (r: Result<&T, BrokerError>)
        ensures
            self@.contains_key(id) ==> (r matches Ok(s) && *s == self@[id]),
            !self@.contains_key(id) ==> (r matches Err(e) && e == BrokerError::NotFound),
    ;
}

/// A registry table from identifier to endpoint, keys unique. The broker
/// never inspects an endpoint: it only stores, returns and hands back
/// endpoint values, so the endpoint type is free.
pub struct SendBroker<T> {
    table: HashMap<u64, T>,
}

impl<T> View for SendBroker<T> {
    type V = Map<u64, T>;

    closed spec fn view(&self) -> Map<u64, T> {
        self.table@
    }
}

impl<T> SendBroker<T> {
    /// A broker whose table holds no registration at all.
    pub fn new() -> (broker: Self)
        ensures
            broker@ == Map::<u64, T>::empty(),
    {
        SendBroker { table: HashMap::new() }
    }
}

impl<T> Registrar<T> for SendBroker<T> {
    fn reg_sender(&mut self, id: u64, sender: T) -> (r: CallResult<T>) {
        match self.table.insert(id, sender) {
            None => Ok(None),
            prior => Ok(prior),
        }
    }

    fn unreg_sender(&mut self, id: u64) -> (r: CallResult<T>) {
        match self.table.remove(&id) {
            None => Err(BrokerError::NotFound),
            removed => Ok(removed),
        }
    }
}

impl<T> Finder<T> for SendBroker<T> {
    fn find_sender(&self, id: u64) -> (r: Result<&T, BrokerError>) {
        match self.table.get(&id) {
            None => Err(BrokerError::NotFound),
            Some(sender) => Ok(sender),
        }
    }
}

} // verus!
