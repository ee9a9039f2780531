//! The dispatch contract and the binding unit.
//!
//! A [`Dispatcher`] bridges the untyped wire to one interface's typed
//! methods: it decodes the opcode-specific arguments of a message and invokes
//! the matching method of the bound object.  Its whole behaviour is pinned by
//! a functional model over the abstract states of the object and the bundle,
//! so every conforming dispatcher is deterministic and free of hidden state.
//!
//! A [`Handler`] pairs exactly one object with the dispatcher built for its
//! interface and exposes a single uniform entry point, so a registry can
//! drive handlers for heterogeneous object kinds without knowing their
//! concrete types.

use vstd::prelude::*;

use crate::codec::{BytesCursor, FdsCursor};
use crate::types::{Bundle, BundleView, DispatchError, Header, Task, HEADER_SIZE};

verus! {

/// Decoder and invoker bound to one interface.
///
/// Implementations are generated per protocol object kind (one per role);
/// [`crate::registry`] holds a worked instance.  A dispatcher is
/// default-constructible and carries no persistent state between calls: its
/// entire behaviour is the function [`Dispatcher::model`] of the target
/// object's abstract state, the bundle's abstract state, the header, the
/// message's argument bytes, and the pending handles.
pub trait Dispatcher<I: View>: Sized {
    /// Functional model of one dispatch call: from the object's state, the
    /// bundle's state, the header, the argument payload of this one message,
    /// and the handles still unread on the side channel, to the new object
    /// state, the new bundle state, the outcome, and how many handles were
    /// consumed.
    spec fn model(obj: I::V, bundle: BundleView, header: Header, payload: Seq<u8>, fds: Seq<i32>) -> (
        I::V,
        BundleView,
        Result<Task, DispatchError>,
        int,
    );

    /// Constructs the dispatcher.  It holds only transient parsing state, so
    /// construction needs no inputs.
    fn new() -> Self;

    /// Decodes the message whose header is `header` and whose argument bytes
    /// begin at the current position of `bytes_buf`, and invokes the matching
    /// method of `object` — at most once, and only with a fully decoded
    /// argument set.
    ///
    /// The transport has already validated the framing, so the payload's
    /// `header.size - 8` bytes are in the buffer.  On return the byte cursor
    /// stands exactly at the end of this message whatever the outcome —
    /// partial decodes never leave the stream mid-message — and the handle
    /// cursor has advanced by exactly the handles the model consumed.  On an
    /// unknown opcode no argument is decoded and no method is invoked.
    fn dispatch(
        &mut self,
        object: &mut I,
        bundle: &mut Bundle,
        header: &Header,
        bytes_buf: &mut BytesCursor,
        fds_buf: &mut FdsCursor,
    ) -> (r: Result<Task, DispatchError>)
        requires
            header.size >= HEADER_SIZE,
            old(bytes_buf).wf(),
            old(fds_buf).wf(),
            old(bytes_buf).at() + header.size - HEADER_SIZE <= old(bytes_buf).data().len(),
        ensures
            final(bytes_buf).wf(),
            final(fds_buf).wf(),
            final(bytes_buf).data() == old(bytes_buf).data(),
            final(fds_buf).data() == old(fds_buf).data(),
            final(bytes_buf).at() == old(bytes_buf).at() + header.size - HEADER_SIZE,
            ({
                let payload = old(bytes_buf).data().subrange(
                    old(bytes_buf).at(),
                    old(bytes_buf).at() + header.size - HEADER_SIZE,
                );
                let fds = old(fds_buf).data().skip(old(fds_buf).at());
                let m = Self::model(old(object)@, old(bundle)@, *header, payload, fds);
                final(object)@ == m.0 && final(bundle)@ == m.1 && r == m.2 && final(fds_buf).at()
                    == old(fds_buf).at() + m.3
            }),
    ;
}

/// The binding unit: exactly one object paired with the dispatcher built for
/// its interface.
///
/// The handler exclusively owns both halves; rebinding means constructing a
/// new handler and replacing the registry entry.  Its one operation forwards
/// a message envelope to the internal dispatcher against the internal object
/// and returns the dispatcher's result unchanged.
pub struct Handler<I, D> where I: View, D: Dispatcher<I> {
    object: I,
    dispatcher: D,
}

impl<I, D> Handler<I, D> where I: View, D: Dispatcher<I> {
    /// The bound object.
    pub closed spec fn obj(self) -> I {
        self.object
    }

    /// Binds `object` to a freshly constructed dispatcher for its interface.
    pub fn new(object: I) -> (r: Self)
        ensures
            r.obj() == object,
    {
        Handler { object, dispatcher: D::new() }
    }

    /// Read access to the bound object, for the owning connection's
    /// bookkeeping.
    pub fn object(&self) -> (r: &I)
        ensures
            *r == self.obj(),
    {
        &self.object
    }

    /// Forwards one message envelope to the internal dispatcher against the
    /// internal object, returning its result unchanged.
    pub fn dispatch(
        &mut self,
        bundle: &mut Bundle,
        header: &Header,
        bytes_buf: &mut BytesCursor,
        fds_buf: &mut FdsCursor,
    ) -> (r: Result<Task, DispatchError>)
        requires
            header.size >= HEADER_SIZE,
            old(bytes_buf).wf(),
            old(fds_buf).wf(),
            old(bytes_buf).at() + header.size - HEADER_SIZE <= old(bytes_buf).data().len(),
        ensures
            final(bytes_buf).wf(),
            final(fds_buf).wf(),
            final(bytes_buf).data() == old(bytes_buf).data(),
            final(fds_buf).data() == old(fds_buf).data(),
            final(bytes_buf).at() == old(bytes_buf).at() + header.size - HEADER_SIZE,
            ({
                let payload = old(bytes_buf).data().subrange(
                    old(bytes_buf).at(),
                    old(bytes_buf).at() + header.size - HEADER_SIZE,
                );
                let fds = old(fds_buf).data().skip(old(fds_buf).at());
                let m = D::model(old(self).obj()@, old(bundle)@, *header, payload, fds);
                final(self).obj()@ == m.0 && final(bundle)@ == m.1 && r == m.2
                    && final(fds_buf).at() == old(fds_buf).at() + m.3
            }),
    {
        self.dispatcher.dispatch(&mut self.object, bundle, header, bytes_buf, fds_buf)
    }
}

/// Construction is idempotent: handlers built from objects with equal
/// abstract state expose identical dispatch behaviour on every envelope.
/// Dispatchers come from `Dispatcher::new()` and carry no state of their own,
/// so no hidden sharing between handler instances can make their outcomes
/// diverge.
pub proof fn lemma_handler_behavior_determined<I, D>(
    h1: Handler<I, D>,
    h2: Handler<I, D>,
    bundle: BundleView,
    header: Header,
    payload: Seq<u8>,
    fds: Seq<i32>,
) where I: View, D: Dispatcher<I>
    requires
        h1.obj()@ == h2.obj()@,
    ensures
        D::model(h1.obj()@, bundle, header, payload, fds) == D::model(
            h2.obj()@,
            bundle,
            header,
            payload,
            fds,
        ),
{
}

} // verus!
