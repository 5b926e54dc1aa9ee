//! Typed listeners for named packets. A listener pairs a packet type's
//! decoder with a callback; the dispatch table deals in names and raw bytes
//! only.
use vstd::prelude::*;
use std::marker::PhantomData;
use std::sync::Arc;
use crate::client::NamedPacket;
use crate::codec::DecodePacket;

verus! {

/// A callback for packets of type `T`, shared between the tasks that run it.
pub struct ListenerHandler<T, F> {
    listener_fn: Arc<F>,
    _marker: PhantomData<T>,
}

impl<T, F> ListenerHandler<T, F> {
    pub closed spec fn listener(&self) -> F {
        *self.listener_fn
    }

    pub fn new(listener_fn: F) -> (r: Self)
        ensures
            r.listener() == listener_fn,
    {
        Self { listener_fn: Arc::new(listener_fn), _marker: PhantomData }
    }

    /// The callback.
    pub fn listener_fn(&self) -> (r: &F)
        ensures
            *r == self.listener(),
    {
        &*self.listener_fn
    }
}

/// Decodes the payload of a named packet as a `T`; the payload must be a
/// valid encoding of one.
pub fn decode_packet<T: DecodePacket>(raw_packet: NamedPacket) -> (r: T)
    requires
        T::decodable(raw_packet.data@),
    ensures
        r@ == T::decoded(raw_packet.data@),
{
    T::decode(&raw_packet.data).unwrap()
}

} // verus!
