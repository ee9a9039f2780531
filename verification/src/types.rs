//! Core protocol data types: object identifiers, message headers, the
//! continuation directives a successful dispatch returns, the closed error
//! taxonomy of a failed dispatch, and the connection-scoped [`Bundle`] context
//! handed to every method invocation.

use vstd::prelude::*;

verus! {

/// Identifier of one live protocol object within one connection.
///
/// Ids are process-local and opaque; `0` is the null id, which never names a
/// live object.  Uniqueness among live objects and reuse after destruction are
/// the registry collaborator's responsibility.
#[derive(Clone, Copy, Debug, PartialEq, Eq, Structural, Hash)]
pub struct ObjectId(pub u32);

impl ObjectId {
    /// Constructs an id from its numerical value.
    pub fn new(value: u32) -> (r: Self)
        ensures
            r.0 == value,
    {
        ObjectId(value)
    }

    /// Returns the numerical value of the id.
    pub fn get_value(&self) -> (r: u32)
        ensures
            r == self.0,
    {
        self.0
    }

    /// True for the null id, which never refers to a live object.
    pub fn is_null(&self) -> (r: bool)
        ensures
            r == (self.0 == 0),
    {
        self.0 == 0
    }
}

/// Number of bytes a message header occupies on the wire.
pub const HEADER_SIZE: u16 = 8;

/// Header of one wire message, already consumed from the stream by the
/// transport before dispatch begins.
///
/// `size` counts the whole message including this header, so the argument
/// payload that follows occupies `size - HEADER_SIZE` bytes.
#[derive(Clone, Copy, Debug, PartialEq, Eq, Structural)]
pub struct Header {
    /// Id of the object the message is addressed to.
    pub object_id: u32,
    /// Method selector, an index into the target interface's method table.
    pub opcode: u16,
    /// Total message size in bytes, header included.
    pub size: u16,
}

/// Continuation directive: the success outcome of one dispatch call.
///
/// This is a closed set, separate from the failure channel: every dispatch
/// returns exactly one directive or one [`DispatchError`].
#[derive(Clone, Copy, Debug, PartialEq, Eq, Structural)]
pub enum Task {
    /// Keep processing messages normally.
    Continue,
    /// The dispatched object asked to be destroyed; the registry must remove
    /// its handler and release the id.
    Destroy,
    /// Unrecoverable protocol state; the owning connection must be torn down.
    Terminate,
}

/// Closed taxonomy of dispatch failures.
///
/// Every failure is local to one message on one connection; nothing here is
/// retryable and no error is ever swallowed.
#[derive(Clone, Copy, Debug, PartialEq, Eq, Structural)]
pub enum DispatchError {
    /// The header's opcode has no entry in the target interface's method
    /// table (protocol or version mismatch).
    UnknownOpcode {
        /// Id of the object the message was addressed to.
        object_id: u32,
        /// The opcode that has no table entry.
        opcode: u16,
    },
    /// Decoding the argument payload failed: buffer underrun, inconsistent
    /// length prefix, or an invalid encoding.
    MalformedArguments {
        /// Id of the object the message was addressed to.
        object_id: u32,
        /// The opcode whose arguments failed to decode.
        opcode: u16,
    },
    /// No live object is registered under the target id.  Detected by the
    /// registry collaborator, represented here so all dispatch failures share
    /// one family.
    UnknownObjectId {
        /// The id that resolved to no live object.
        object_id: u32,
    },
    /// An interface method judged the fully decoded request semantically
    /// invalid.  The meaning of `code` is owned by the interface; this layer
    /// only propagates it.
    MethodFailure {
        /// Interface-defined reason.
        code: u32,
    },
}

/// Abstract state of a [`Bundle`]: the queued outbound notifications, each as
/// its wire bytes and side-channel handles.
pub type BundleView = Seq<(Seq<u8>, Seq<i32>)>;

/// One outbound notification queued on a [`Bundle`]: its encoded bytes and
/// the handles to carry on the side channel.
#[derive(Clone, Debug)]
pub struct OutboundMessage {
    /// Encoded wire bytes of the message, header included.
    pub bytes: Vec<u8>,
    /// Out-of-band handles accompanying the message.
    pub fds: Vec<i32>,
}

/// Connection-scoped context borrowed by every dispatch call.
///
/// Interface methods use it for side effects — here, queuing outbound
/// notifications.  The bundle is borrowed for the duration of one dispatch
/// call only; the owning connection drains the queue afterwards.
pub struct Bundle {
    outgoing: Vec<OutboundMessage>,
}

impl View for Bundle {
    type V = Seq<(Seq<u8>, Seq<i32>)>;

    closed spec fn view(&self) -> Self::V {
        self.outgoing@.map_values(|m: OutboundMessage| (m.bytes@, m.fds@))
    }
}

impl Bundle {
    /// Constructs a bundle with an empty outbound queue.
    pub fn new() -> (r: Self)
        ensures
            r@ == Seq::<(Seq<u8>, Seq<i32>)>::empty(),
    {
        let r = Bundle { outgoing: Vec::new() };
        proof {
            assert(r@ =~= Seq::<(Seq<u8>, Seq<i32>)>::empty());
        }
        r
    }

    /// Queues one outbound notification.
    pub fn send(&mut self, msg: OutboundMessage)
        ensures
            final(self)@ == old(self)@.push((msg.bytes@, msg.fds@)),
    {
        let ghost prev = self@;
        let ghost m = (msg.bytes@, msg.fds@);
        self.outgoing.push(msg);
        proof {
            assert(self@ =~= prev.push(m));
        }
    }

    /// The messages queued so far, oldest first.
    pub fn messages(&self) -> (r: &Vec<OutboundMessage>)
        ensures
            r@.map_values(|m: OutboundMessage| (m.bytes@, m.fds@)) == self@,
    {
        &self.outgoing
    }
}

} // verus!
