//! One worked interface instantiation: a registry-like object kind with a
//! three-entry method table.
//!
//! Protocol interfaces are normally generated from a schema description; this
//! module shows the exact shape such generated code takes, and is the
//! instantiation the crate's dispatch laws are stated against.  The method
//! table is:
//!
//! - opcode 0, `bind(id: uint)` — bind a global by numerical id;
//! - opcode 1, `destroy()` — ask for this object's destruction;
//! - opcode 2, `announce(label: string, data: array, target: object id,
//!   channel: handle)` — attach a labelled blob to another object, passing a
//!   handle on the side channel.  It covers every argument category the wire
//!   format knows.
//!
//! [`Registry`] is the interface contract an object kind implements;
//! [`RegistryDispatcher`] is its companion decoder for the receiving role;
//! the `encode_*` functions are the sending role's companion encoders; and
//! [`RegistryObject`] is a plain conforming implementation.

use vstd::bytes::lemma_auto_spec_u32_to_from_le_bytes;
use vstd::prelude::*;

use crate::codec::{
    enc_array, enc_message, enc_string, enc_uint, encode_message, lemma_take_array_enc,
    lemma_take_string_enc, lemma_take_u32_enc, pad4, take_array, take_string, take_u32,
    write_array, write_string, write_u32, BytesCursor, FdsCursor,
};
use crate::dispatch::Dispatcher;
use crate::types::{Bundle, BundleView, DispatchError, Header, ObjectId, Task, HEADER_SIZE};

verus! {

/// Opcode of `bind(id: uint)`.
pub const OP_BIND: u16 = 0;

/// Opcode of `destroy()`.
pub const OP_DESTROY: u16 = 1;

/// Opcode of `announce(label, data, target, channel)`.
pub const OP_ANNOUNCE: u16 = 2;

/// Method-failure reason: `announce` was given the null object id as target.
pub const ERR_NULL_TARGET: u32 = 1;

/// The registry interface: one method per opcode, each taking its fully
/// decoded arguments plus the connection bundle, and returning a continuation
/// directive or a dispatch error.
///
/// Methods execute synchronously within the dispatch call and never block.
/// Each method's behaviour is pinned by a model spec function over the
/// object's abstract state, so dispatching is deterministic for every
/// conforming implementation.
pub trait Registry: View + Sized {
    /// Model of [`Registry::bind`].
    spec fn bind_model(v: Self::V, bundle: BundleView, id: u32) -> (
        Self::V,
        BundleView,
        Result<Task, DispatchError>,
    );

    /// Model of [`Registry::destroy`].
    spec fn destroy_model(v: Self::V, bundle: BundleView) -> (
        Self::V,
        BundleView,
        Result<Task, DispatchError>,
    );

    /// Model of [`Registry::announce`].
    spec fn announce_model(
        v: Self::V,
        bundle: BundleView,
        label: Seq<u8>,
        data: Seq<u8>,
        target: ObjectId,
        fd: i32,
    ) -> (Self::V, BundleView, Result<Task, DispatchError>);

    /// Handles opcode 0: bind a global by id.
    fn bind(&mut self, bundle: &mut Bundle, id: u32) -> (r: Result<Task, DispatchError>)
        ensures
            ({
                let m = Self::bind_model(old(self)@, old(bundle)@, id);
                final(self)@ == m.0 && final(bundle)@ == m.1 && r == m.2
            }),
    ;

    /// Handles opcode 1: ask for this object's destruction.
    fn destroy(&mut self, bundle: &mut Bundle) -> (r: Result<Task, DispatchError>)
        ensures
            ({
                let m = Self::destroy_model(old(self)@, old(bundle)@);
                final(self)@ == m.0 && final(bundle)@ == m.1 && r == m.2
            }),
    ;

    /// Handles opcode 2: attach a labelled blob to `target`, with a handle
    /// from the side channel.
    fn announce(
        &mut self,
        bundle: &mut Bundle,
        label: Vec<u8>,
        data: Vec<u8>,
        target: ObjectId,
        fd: i32,
    ) -> (r: Result<Task, DispatchError>)
        ensures
            ({
                let m = Self::announce_model(old(self)@, old(bundle)@, label@, data@, target, fd);
                final(self)@ == m.0 && final(bundle)@ == m.1 && r == m.2
            }),
    ;
}

/// Functional model of dispatching one message to a [`Registry`] object:
/// look the opcode up in the method table; decode the arguments in schema
/// order, in full, before any invocation; on success invoke exactly the
/// matching method model.  Unknown opcodes and decode failures change
/// nothing and consume no handles.
pub open spec fn registry_model<I: Registry>(
    obj: I::V,
    bundle: BundleView,
    header: Header,
    payload: Seq<u8>,
    fds: Seq<i32>,
) -> (I::V, BundleView, Result<Task, DispatchError>, int) {
    if header.opcode == OP_BIND {
        match take_u32(payload) {
            Some((id, rest)) => {
                let m = I::bind_model(obj, bundle, id);
                (m.0, m.1, m.2, 0)
            },
            None => (
                obj,
                bundle,
                Err(
                    DispatchError::MalformedArguments {
                        object_id: header.object_id,
                        opcode: header.opcode,
                    },
                ),
                0,
            ),
        }
    } else if header.opcode == OP_DESTROY {
        let m = I::destroy_model(obj, bundle);
        (m.0, m.1, m.2, 0)
    } else if header.opcode == OP_ANNOUNCE {
        match take_string(payload) {
            Some((label, r1)) => match take_array(r1) {
                Some((data, r2)) => match take_u32(r2) {
                    Some((target, r3)) => if fds.len() >= 1 {
                        let m = I::announce_model(
                            obj,
                            bundle,
                            label,
                            data,
                            ObjectId(target),
                            fds[0],
                        );
                        (m.0, m.1, m.2, 1)
                    } else {
                        (
                            obj,
                            bundle,
                            Err(
                                DispatchError::MalformedArguments {
                                    object_id: header.object_id,
                                    opcode: header.opcode,
                                },
                            ),
                            0,
                        )
                    },
                    None => (
                        obj,
                        bundle,
                        Err(
                            DispatchError::MalformedArguments {
                                object_id: header.object_id,
                                opcode: header.opcode,
                            },
                        ),
                        0,
                    ),
                },
                None => (
                    obj,
                    bundle,
                    Err(
                        DispatchError::MalformedArguments {
                            object_id: header.object_id,
                            opcode: header.opcode,
                        },
                    ),
                    0,
                ),
            },
            None => (
                obj,
                bundle,
                Err(
                    DispatchError::MalformedArguments {
                        object_id: header.object_id,
                        opcode: header.opcode,
                    },
                ),
                0,
            ),
        }
    } else {
        (
            obj,
            bundle,
            Err(DispatchError::UnknownOpcode { object_id: header.object_id, opcode: header.opcode }),
            0,
        )
    }
}

/// Decoder for the [`Registry`] interface: the shape a generated dispatcher
/// takes.  Stateless; one instance serves any object implementing
/// [`Registry`].
pub struct RegistryDispatcher;

impl<I: Registry> Dispatcher<I> for RegistryDispatcher {
    open spec fn model(
        obj: I::V,
        bundle: BundleView,
        header: Header,
        payload: Seq<u8>,
        fds: Seq<i32>,
    ) -> (I::V, BundleView, Result<Task, DispatchError>, int) {
        registry_model::<I>(obj, bundle, header, payload, fds)
    }

    fn new() -> Self {
        RegistryDispatcher
    }

    fn dispatch(
        &mut self,
        object: &mut I,
        bundle: &mut Bundle,
        header: &Header,
        bytes_buf: &mut BytesCursor,
        fds_buf: &mut FdsCursor,
    ) -> (r: Result<Task, DispatchError>) {
        let paylen = (header.size - HEADER_SIZE) as usize;
        let pos0 = bytes_buf.position();
        // The framing precondition bounds `pos0 + paylen` by the buffer
        // length, so computing the message end cannot overflow.
        let cap = bytes_buf.len();
        let end = pos0 + paylen;
        proof {
            assert(end <= cap);
        }
        let ghost at0 = bytes_buf.at();
        let ghost payload = bytes_buf.data().subrange(at0, at0 + header.size - HEADER_SIZE);
        proof {
            assert(payload =~= bytes_buf.data().subrange(at0, end as int));
        }
        if header.opcode == OP_BIND {
            match bytes_buf.read_u32(end) {
                Some(id) => {
                    let r = object.bind(bundle, id);
                    bytes_buf.skip_to(end);
                    r
                },
                None => {
                    bytes_buf.skip_to(end);
                    Err(
                        DispatchError::MalformedArguments {
                            object_id: header.object_id,
                            opcode: header.opcode,
                        },
                    )
                },
            }
        } else if header.opcode == OP_DESTROY {
            let r = object.destroy(bundle);
            bytes_buf.skip_to(end);
            r
        } else if header.opcode == OP_ANNOUNCE {
            let label = match bytes_buf.read_string(end) {
                Some(v) => v,
                None => {
                    bytes_buf.skip_to(end);
                    return Err(
                        DispatchError::MalformedArguments {
                            object_id: header.object_id,
                            opcode: header.opcode,
                        },
                    );
                },
            };
            proof {
                let c1 = take_string(payload).unwrap().1;
                assert(c1 =~= bytes_buf.data().subrange(bytes_buf.at(), end as int));
            }
            let data = match bytes_buf.read_array(end) {
                Some(v) => v,
                None => {
                    bytes_buf.skip_to(end);
                    return Err(
                        DispatchError::MalformedArguments {
                            object_id: header.object_id,
                            opcode: header.opcode,
                        },
                    );
                },
            };
            proof {
                let c2 = take_array(take_string(payload).unwrap().1).unwrap().1;
                assert(c2 =~= bytes_buf.data().subrange(bytes_buf.at(), end as int));
            }
            let target = match bytes_buf.read_u32(end) {
                Some(v) => v,
                None => {
                    bytes_buf.skip_to(end);
                    return Err(
                        DispatchError::MalformedArguments {
                            object_id: header.object_id,
                            opcode: header.opcode,
                        },
                    );
                },
            };
            let fd = match fds_buf.read_fd() {
                Some(v) => v,
                None => {
                    bytes_buf.skip_to(end);
                    return Err(
                        DispatchError::MalformedArguments {
                            object_id: header.object_id,
                            opcode: header.opcode,
                        },
                    );
                },
            };
            let r = object.announce(bundle, label, data, ObjectId::new(target), fd);
            bytes_buf.skip_to(end);
            r
        } else {
            bytes_buf.skip_to(end);
            Err(DispatchError::UnknownOpcode { object_id: header.object_id, opcode: header.opcode })
        }
    }
}

/// Abstract state of a [`RegistryObject`]: the ids bound so far, the
/// announcements received, and whether the object is still alive.
pub struct RegistryState {
    /// Ids passed to `bind`, in arrival order.
    pub bound: Seq<u32>,
    /// Fully decoded `announce` argument sets, in arrival order.
    pub announced: Seq<(Seq<u8>, Seq<u8>, ObjectId, i32)>,
    /// False once the object has asked for its own destruction.
    pub alive: bool,
}

/// A plain conforming implementation of [`Registry`].
///
/// It records what the protocol told it: `bind` appends the id, `announce`
/// appends the decoded arguments (rejecting a null target as a method-level
/// failure), and `destroy` asks for destruction — or for connection teardown
/// if the peer destroys the same object twice, which is unrecoverable
/// protocol state.
pub struct RegistryObject {
    bound: Vec<u32>,
    announced: Vec<(Vec<u8>, Vec<u8>, ObjectId, i32)>,
    alive: bool,
}

impl View for RegistryObject {
    type V = RegistryState;

    closed spec fn view(&self) -> RegistryState {
        RegistryState {
            bound: self.bound@,
            announced: self.announced@.map_values(
                |e: (Vec<u8>, Vec<u8>, ObjectId, i32)| (e.0@, e.1@, e.2, e.3),
            ),
            alive: self.alive,
        }
    }
}

impl RegistryObject {
    /// Constructs a live object with nothing recorded yet.
    pub fn new() -> (r: Self)
        ensures
            r@.bound == Seq::<u32>::empty(),
            r@.announced == Seq::<(Seq<u8>, Seq<u8>, ObjectId, i32)>::empty(),
            r@.alive,
    {
        let r = RegistryObject { bound: Vec::new(), announced: Vec::new(), alive: true };
        proof {
            assert(r@.announced =~= Seq::<(Seq<u8>, Seq<u8>, ObjectId, i32)>::empty());
        }
        r
    }

    /// The ids bound so far, in arrival order.
    pub fn bound(&self) -> (r: &Vec<u32>)
        ensures
            r@ == self@.bound,
    {
        &self.bound
    }

    /// The announcements received so far, in arrival order.
    pub fn announced(&self) -> (r: &Vec<(Vec<u8>, Vec<u8>, ObjectId, i32)>)
        ensures
            r@.map_values(|e: (Vec<u8>, Vec<u8>, ObjectId, i32)| (e.0@, e.1@, e.2, e.3))
                == self@.announced,
    {
        &self.announced
    }

    /// Whether the object has not yet asked for its destruction.
    pub fn is_alive(&self) -> (r: bool)
        ensures
            r == self@.alive,
    {
        self.alive
    }
}

impl Registry for RegistryObject {
    open spec fn bind_model(v: RegistryState, bundle: BundleView, id: u32) -> (
        RegistryState,
        BundleView,
        Result<Task, DispatchError>,
    ) {
        (RegistryState { bound: v.bound.push(id), ..v }, bundle, Ok(Task::Continue))
    }

    open spec fn destroy_model(v: RegistryState, bundle: BundleView) -> (
        RegistryState,
        BundleView,
        Result<Task, DispatchError>,
    ) {
        if v.alive {
            (RegistryState { alive: false, ..v }, bundle, Ok(Task::Destroy))
        } else {
            (v, bundle, Ok(Task::Terminate))
        }
    }

    open spec fn announce_model(
        v: RegistryState,
        bundle: BundleView,
        label: Seq<u8>,
        data: Seq<u8>,
        target: ObjectId,
        fd: i32,
    ) -> (RegistryState, BundleView, Result<Task, DispatchError>) {
        if target.0 == 0 {
            (v, bundle, Err(DispatchError::MethodFailure { code: ERR_NULL_TARGET }))
        } else {
            (
                RegistryState { announced: v.announced.push((label, data, target, fd)), ..v },
                bundle,
                Ok(Task::Continue),
            )
        }
    }

    fn bind(&mut self, bundle: &mut Bundle, id: u32) -> (r: Result<Task, DispatchError>) {
        self.bound.push(id);
        Ok(Task::Continue)
    }

    fn destroy(&mut self, bundle: &mut Bundle) -> (r: Result<Task, DispatchError>) {
        if self.alive {
            self.alive = false;
            Ok(Task::Destroy)
        } else {
            Ok(Task::Terminate)
        }
    }

    fn announce(
        &mut self,
        bundle: &mut Bundle,
        label: Vec<u8>,
        data: Vec<u8>,
        target: ObjectId,
        fd: i32,
    ) -> (r: Result<Task, DispatchError>) {
        if target.is_null() {
            Err(DispatchError::MethodFailure { code: ERR_NULL_TARGET })
        } else {
            let ghost l = label@;
            let ghost d = data@;
            self.announced.push((label, data, target, fd));
            proof {
                assert(self@.announced =~= old(self)@.announced.push((l, d, target, fd)));
            }
            Ok(Task::Continue)
        }
    }
}

/// A message whose opcode is in the table and whose payload is a valid
/// `bind` argument list invokes exactly the bound method, with the argument
/// equal to the decoded value, and passes its directive back unchanged; no
/// handle is consumed.
pub proof fn lemma_dispatch_bind_decodes<I: Registry>(
    obj: I::V,
    bundle: BundleView,
    header: Header,
    fds: Seq<i32>,
    id: u32,
)
    requires
        header.opcode == OP_BIND,
    ensures
        ({
            let m = registry_model::<I>(obj, bundle, header, enc_uint(id), fds);
            let b = I::bind_model(obj, bundle, id);
            m.0 == b.0 && m.1 == b.1 && m.2 == b.2 && m.3 == 0
        }),
{
    lemma_take_u32_enc(id, Seq::<u8>::empty());
    assert(enc_uint(id) + Seq::<u8>::empty() =~= enc_uint(id));
}

/// A `destroy` message invokes exactly the bound method — its argument list
/// is empty, so every payload is valid — and passes the method's directive
/// back unchanged; no handle is consumed.
pub proof fn lemma_dispatch_destroy_invokes<I: Registry>(
    obj: I::V,
    bundle: BundleView,
    header: Header,
    payload: Seq<u8>,
    fds: Seq<i32>,
)
    requires
        header.opcode == OP_DESTROY,
    ensures
        ({
            let m = registry_model::<I>(obj, bundle, header, payload, fds);
            let b = I::destroy_model(obj, bundle);
            m.0 == b.0 && m.1 == b.1 && m.2 == b.2 && m.3 == 0
        }),
{
}

/// Round trip through the dispatcher: a payload produced by the sending
/// role's `announce` encoder, together with its side-channel handle, invokes
/// the bound method with arguments equal to the originals — every argument
/// category decodes back to the value that was encoded — and consumes
/// exactly the one handle.
pub proof fn lemma_dispatch_announce_decodes<I: Registry>(
    obj: I::V,
    bundle: BundleView,
    header: Header,
    fds: Seq<i32>,
    label: Seq<u8>,
    data: Seq<u8>,
    target: u32,
    fd: i32,
)
    requires
        header.opcode == OP_ANNOUNCE,
        label.len() + 1 <= u32::MAX,
        data.len() <= u32::MAX,
        fds.len() >= 1,
        fds[0] == fd,
    ensures
        ({
            let payload = enc_string(label) + enc_array(data) + enc_uint(target);
            let m = registry_model::<I>(obj, bundle, header, payload, fds);
            let b = I::announce_model(obj, bundle, label, data, ObjectId(target), fd);
            m.0 == b.0 && m.1 == b.1 && m.2 == b.2 && m.3 == 1
        }),
{
    let payload = enc_string(label) + enc_array(data) + enc_uint(target);
    lemma_take_string_enc(label, enc_array(data) + enc_uint(target));
    assert(enc_string(label) + (enc_array(data) + enc_uint(target)) =~= payload);
    lemma_take_array_enc(data, enc_uint(target));
    lemma_take_u32_enc(target, Seq::<u8>::empty());
    assert(enc_uint(target) + Seq::<u8>::empty() =~= enc_uint(target));
}

/// An opcode outside the interface's table yields the unknown-opcode error;
/// the object and the bundle are unchanged, no method is invoked, and no
/// handle is consumed.
pub proof fn lemma_dispatch_unknown_opcode<I: Registry>(
    obj: I::V,
    bundle: BundleView,
    header: Header,
    payload: Seq<u8>,
    fds: Seq<i32>,
)
    requires
        header.opcode != OP_BIND,
        header.opcode != OP_DESTROY,
        header.opcode != OP_ANNOUNCE,
    ensures
        ({
            let m = registry_model::<I>(obj, bundle, header, payload, fds);
            m.0 == obj && m.1 == bundle && m.2 == Err::<Task, DispatchError>(
                DispatchError::UnknownOpcode {
                    object_id: header.object_id,
                    opcode: header.opcode,
                },
            ) && m.3 == 0
        }),
{
}

/// A `bind` payload truncated before its one argument completes yields the
/// malformed-arguments error; the object and the bundle are unchanged and no
/// method is invoked.
pub proof fn lemma_dispatch_truncated_bind<I: Registry>(
    obj: I::V,
    bundle: BundleView,
    header: Header,
    payload: Seq<u8>,
    fds: Seq<i32>,
)
    requires
        header.opcode == OP_BIND,
        payload.len() < 4,
    ensures
        ({
            let m = registry_model::<I>(obj, bundle, header, payload, fds);
            m.0 == obj && m.1 == bundle && m.2 == Err::<Task, DispatchError>(
                DispatchError::MalformedArguments {
                    object_id: header.object_id,
                    opcode: header.opcode,
                },
            ) && m.3 == 0
        }),
{
}

/// An `announce` payload cut off anywhere before the last argument's
/// encoding completes yields the malformed-arguments error; the object and
/// the bundle are unchanged, no method is invoked, and no handle is
/// consumed.
pub proof fn lemma_dispatch_truncated_announce<I: Registry>(
    obj: I::V,
    bundle: BundleView,
    header: Header,
    payload: Seq<u8>,
    fds: Seq<i32>,
    label: Seq<u8>,
    data: Seq<u8>,
    target: u32,
)
    requires
        header.opcode == OP_ANNOUNCE,
        label.len() + 1 <= u32::MAX,
        data.len() <= u32::MAX,
        payload == (enc_string(label) + enc_array(data) + enc_uint(target)).take(
            payload.len() as int,
        ),
        payload.len() < (enc_string(label) + enc_array(data) + enc_uint(target)).len(),
    ensures
        ({
            let m = registry_model::<I>(obj, bundle, header, payload, fds);
            m.0 == obj && m.1 == bundle && m.2 == Err::<Task, DispatchError>(
                DispatchError::MalformedArguments {
                    object_id: header.object_id,
                    opcode: header.opcode,
                },
            ) && m.3 == 0
        }),
{
    lemma_auto_spec_u32_to_from_le_bytes();
    let e1 = enc_string(label);
    let e2 = enc_array(data);
    let e3 = enc_uint(target);
    let full = e1 + e2 + e3;
    let k = payload.len() as int;
    let n1 = label.len() as int + 1;
    let t1 = n1 + pad4(n1);
    assert(e1.len() == 4 + t1);
    let n2 = data.len() as int;
    let t2 = n2 + pad4(n2);
    assert(e2.len() == 4 + t2);
    if k < e1.len() {
        if k >= 4 {
            let n1c = (label.len() + 1) as u32;
            assert(payload.take(4) =~= enc_uint(n1c));
            assert(take_u32(payload) == Some((n1c, payload.skip(4))));
            assert(payload.skip(4).len() == k - 4 < t1);
        }
        assert(take_string(payload) is None);
    } else {
        let tail = (e2 + e3).take(k - e1.len());
        assert(payload =~= e1 + tail);
        lemma_take_string_enc(label, tail);
        assert(take_string(payload) == Some((label, tail)));
        assert(tail.len() == k - e1.len());
        if tail.len() < e2.len() {
            if tail.len() >= 4 {
                let n2c = data.len() as u32;
                assert(tail.take(4) =~= enc_uint(n2c));
                assert(take_u32(tail) == Some((n2c, tail.skip(4))));
                assert(tail.skip(4).len() == tail.len() - 4 < t2);
            }
            assert(take_array(tail) is None);
        } else {
            let tail2 = e3.take(tail.len() - e2.len());
            assert(tail =~= e2 + tail2);
            lemma_take_array_enc(data, tail2);
            assert(take_array(tail) == Some((data, tail2)));
            assert(tail2.len() < 4);
            assert(take_u32(tail2) is None);
        }
    }
}

/// Encodes the sending role's `bind(id)` call as a whole wire message
/// addressed to `dest`.
pub fn encode_bind(dest: ObjectId, id: u32) -> (r: Vec<u8>)
    ensures
        r@ == enc_message(dest.0, OP_BIND, enc_uint(id)),
{
    let mut payload: Vec<u8> = Vec::new();
    write_u32(&mut payload, id);
    proof {
        lemma_auto_spec_u32_to_from_le_bytes();
        assert(payload@ =~= enc_uint(id));
    }
    encode_message(dest.get_value(), OP_BIND, &payload)
}

/// Encodes the sending role's `destroy()` call as a whole wire message
/// addressed to `dest`.
pub fn encode_destroy(dest: ObjectId) -> (r: Vec<u8>)
    ensures
        r@ == enc_message(dest.0, OP_DESTROY, Seq::<u8>::empty()),
{
    let payload: Vec<u8> = Vec::new();
    proof {
        assert(payload@ =~= Seq::<u8>::empty());
    }
    encode_message(dest.get_value(), OP_DESTROY, &payload)
}

/// Encodes the sending role's `announce(label, data, target, channel)` call:
/// the wire message addressed to `dest`, and the one handle to pass on the
/// side channel.
pub fn encode_announce(
    dest: ObjectId,
    label: &Vec<u8>,
    data: &Vec<u8>,
    target: ObjectId,
    fd: i32,
) -> (r: (Vec<u8>, Vec<i32>))
    requires
        label@.len() + data@.len() + 27 <= u16::MAX,
    ensures
        r.0@ == enc_message(
            dest.0,
            OP_ANNOUNCE,
            enc_string(label@) + enc_array(data@) + enc_uint(target.0),
        ),
        r.1@ == seq![fd],
{
    let mut payload: Vec<u8> = Vec::new();
    write_string(&mut payload, label);
    write_array(&mut payload, data);
    write_u32(&mut payload, target.get_value());
    proof {
        lemma_auto_spec_u32_to_from_le_bytes();
        assert(payload@ =~= enc_string(label@) + enc_array(data@) + enc_uint(target.0));
        assert(pad4(label@.len() as int + 1) <= 3);
        assert(pad4(data@.len() as int) <= 3);
    }
    let msg = encode_message(dest.get_value(), OP_ANNOUNCE, &payload);
    let mut fds: Vec<i32> = Vec::new();
    fds.push(fd);
    proof {
        assert(fds@ =~= seq![fd]);
    }
    (msg, fds)
}

} // verus!
