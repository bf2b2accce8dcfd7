//! The hand-over of natively allocated buffers to the host's collector.
//!
//! A buffer that is handed over moves into a table and is known to the host
//! by a capability, its peer. The record that describes the buffer may be
//! written out for the host once; the host then owes one call of the
//! finalizer with the peer. The finalizer takes the buffer out of the table,
//! and that is the one way a buffer leaves it. A peer is never given twice,
//! so a finalizer that runs again, or late, finds nothing to release, and
//! nothing is read through a record whose buffer has left the table.

use crate::dart_cobject::{ExternalTypedData, TypedDataArray, TypedDataType};
use vstd::prelude::*;

verus! {

/// A natively allocated buffer, by the type of its elements. Floats are held
/// by the bits of their encoding.
pub enum TypedBuffer {
    Int8(Vec<i8>),
    Uint8(Vec<u8>),
    Int16(Vec<i16>),
    Uint16(Vec<u16>),
    Int32(Vec<i32>),
    Uint32(Vec<u32>),
    Int64(Vec<i64>),
    Uint64(Vec<u64>),
    Float32(Vec<u32>),
    Float64(Vec<u64>),
}

impl TypedBuffer {
    /// The type of the elements.
    pub open spec fn spec_element_type(&self) -> TypedDataType {
        match self {
            TypedBuffer::Int8(_) => TypedDataType::Int8,
            TypedBuffer::Uint8(_) => TypedDataType::Uint8,
            TypedBuffer::Int16(_) => TypedDataType::Int16,
            TypedBuffer::Uint16(_) => TypedDataType::Uint16,
            TypedBuffer::Int32(_) => TypedDataType::Int32,
            TypedBuffer::Uint32(_) => TypedDataType::Uint32,
            TypedBuffer::Int64(_) => TypedDataType::Int64,
            TypedBuffer::Uint64(_) => TypedDataType::Uint64,
            TypedBuffer::Float32(_) => TypedDataType::Float32,
            TypedBuffer::Float64(_) => TypedDataType::Float64,
        }
    }

    /// The number of elements.
    pub open spec fn spec_len(&self) -> usize {
        match self {
            TypedBuffer::Int8(v) => v.len(),
            TypedBuffer::Uint8(v) => v.len(),
            TypedBuffer::Int16(v) => v.len(),
            TypedBuffer::Uint16(v) => v.len(),
            TypedBuffer::Int32(v) => v.len(),
            TypedBuffer::Uint32(v) => v.len(),
            TypedBuffer::Int64(v) => v.len(),
            TypedBuffer::Uint64(v) => v.len(),
            TypedBuffer::Float32(v) => v.len(),
            TypedBuffer::Float64(v) => v.len(),
        }
    }

    /// The type of the elements.
    #[verifier::when_used_as_spec(spec_element_type)]
    pub fn element_type(&self) -> (element: TypedDataType)
        ensures
            element == self.spec_element_type(),
    {
        match self {
            TypedBuffer::Int8(_) => TypedDataType::Int8,
            TypedBuffer::Uint8(_) => TypedDataType::Uint8,
            TypedBuffer::Int16(_) => TypedDataType::Int16,
            TypedBuffer::Uint16(_) => TypedDataType::Uint16,
            TypedBuffer::Int32(_) => TypedDataType::Int32,
            TypedBuffer::Uint32(_) => TypedDataType::Uint32,
            TypedBuffer::Int64(_) => TypedDataType::Int64,
            TypedBuffer::Uint64(_) => TypedDataType::Uint64,
            TypedBuffer::Float32(_) => TypedDataType::Float32,
            TypedBuffer::Float64(_) => TypedDataType::Float64,
        }
    }

    /// The number of elements.
    #[verifier::when_used_as_spec(spec_len)]
    pub fn len(&self) -> (len: usize)
        ensures
            len == self.spec_len(),
    {
        match self {
            TypedBuffer::Int8(v) => v.len(),
            TypedBuffer::Uint8(v) => v.len(),
            TypedBuffer::Int16(v) => v.len(),
            TypedBuffer::Uint16(v) => v.len(),
            TypedBuffer::Int32(v) => v.len(),
            TypedBuffer::Uint32(v) => v.len(),
            TypedBuffer::Int64(v) => v.len(),
            TypedBuffer::Uint64(v) => v.len(),
            TypedBuffer::Float32(v) => v.len(),
            TypedBuffer::Float64(v) => v.len(),
        }
    }

    /// The number of bytes that the elements take, which the host is told
    /// when the buffer is handed over; none where that number is no `usize`.
    pub fn external_size(&self) -> (size: Option<usize>)
        ensures
            size is Some <==> self.len() * self.element_type().element_size() <= usize::MAX,
            size matches Some(bytes) ==> bytes == self.len() * self.element_type().element_size(),
    {
        self.len().checked_mul(self.element_type().element_size())
    }
}

/// A buffer in the table, with what the host is told of it.
pub struct HeldBuffer {
    /// The buffer.
    pub data: TypedBuffer,
    /// The address of its first element.
    pub address: usize,
    /// The address of the finalizer that releases it.
    pub callback: usize,
    /// Whether the record of the buffer has been written out for the host.
    pub registered: bool,
}

/// What can happen to the table of buffers.
pub enum BufferEvent {
    /// Native code hands the buffer over, with the address of its first
    /// element and the address of its finalizer.
    Create(TypedBuffer, usize, usize),
    /// Native code asks to write the record out for the host.
    Register(ExternalTypedData),
    /// The host calls the finalizer with the peer.
    Finalize(usize),
}

/// What the table holds: one place for each buffer that was ever handed over,
/// in the order of the hand-overs, empty once the buffer has been released.
/// The buffer at the place `i` has the peer `i + 1`.
pub type BufferSlots = Seq<Option<HeldBuffer>>;

/// Whether `peer` names a buffer that `slots` still holds.
pub open spec fn is_live(slots: BufferSlots, peer: usize) -> bool {
    1 <= peer <= slots.len() && slots[peer - 1] is Some
}

/// Whether `peer` names a buffer that `slots` held once and has released.
pub open spec fn is_released(slots: BufferSlots, peer: usize) -> bool {
    1 <= peer <= slots.len() && slots[peer - 1] is None
}

/// Whether `peer` names a buffer of `slots` whose record was written out for
/// the host.
pub open spec fn is_registered(slots: BufferSlots, peer: usize) -> bool {
    is_live(slots, peer) && slots[peer - 1]->Some_0.registered
}

/// Whether `record` is the record of a buffer that `slots` still holds: its
/// peer names the buffer, and it says of the buffer what the table knows.
pub open spec fn describes(slots: BufferSlots, record: ExternalTypedData) -> bool {
    &&& is_live(slots, record.peer)
    &&& record.type_ == slots[record.peer - 1]->Some_0.data.element_type()
    &&& record.length == slots[record.peer - 1]->Some_0.data.len()
    &&& record.data == slots[record.peer - 1]->Some_0.address
    &&& record.callback == slots[record.peer - 1]->Some_0.callback
}

/// Whether `event` writes a record out for the host: it asks to, the record
/// is that of a buffer in the table, and it was not written out before.
pub open spec fn registers(slots: BufferSlots, event: BufferEvent) -> bool {
    event matches BufferEvent::Register(record) && describes(slots, record) && !is_registered(
        slots,
        record.peer,
    )
}

/// The buffer that `event` releases from the table, if it releases one.
pub open spec fn released_by(slots: BufferSlots, event: BufferEvent) -> Option<TypedBuffer> {
    match event {
        BufferEvent::Finalize(peer) => if is_live(slots, peer) {
            Some(slots[peer - 1]->Some_0.data)
        } else {
            None
        },
        _ => None,
    }
}

/// The table after `event`.
pub open spec fn after(slots: BufferSlots, event: BufferEvent) -> BufferSlots {
    match event {
        BufferEvent::Create(data, address, callback) => slots.push(
            Some(HeldBuffer { data, address, callback, registered: false }),
        ),
        BufferEvent::Register(record) => if registers(slots, event) {
            slots.update(
                record.peer - 1,
                Some(
                    HeldBuffer {
                        data: slots[record.peer - 1]->Some_0.data,
                        address: slots[record.peer - 1]->Some_0.address,
                        callback: slots[record.peer - 1]->Some_0.callback,
                        registered: true,
                    },
                ),
            )
        } else {
            slots
        },
        BufferEvent::Finalize(peer) => if is_live(slots, peer) {
            slots.update(peer - 1, None)
        } else {
            slots
        },
    }
}

/// The table after the events of `events`, in their order.
pub open spec fn after_all(slots: BufferSlots, events: Seq<BufferEvent>) -> BufferSlots
    decreases events.len(),
{
    if events.len() == 0 {
        slots
    } else {
        after_all(after(slots, events[0]), events.drop_first())
    }
}

/// How many of the events of `events`, which happen in their order to a table
/// that starts as `slots`, release the buffer of `peer`.
pub open spec fn releases(slots: BufferSlots, events: Seq<BufferEvent>, peer: usize) -> nat
    decreases events.len(),
{
    if events.len() == 0 {
        0
    } else {
        let here: nat = if events[0] == BufferEvent::Finalize(peer) && is_live(slots, peer) {
            1
        } else {
            0
        };
        here + releases(after(slots, events[0]), events.drop_first(), peer)
    }
}

/// How many of the events of `events`, which happen in their order to a table
/// that starts as `slots`, write the record of the buffer of `peer` out for
/// the host.
pub open spec fn registrations(slots: BufferSlots, events: Seq<BufferEvent>, peer: usize) -> nat
    decreases events.len(),
{
    if events.len() == 0 {
        0
    } else {
        let here: nat = if registers(slots, events[0]) && events[0]->Register_0.peer == peer {
            1
        } else {
            0
        };
        here + registrations(after(slots, events[0]), events.drop_first(), peer)
    }
}

/// What was released stays released: whatever happens to the table after a
/// buffer has left it, the buffer's peer names no buffer again, nothing
/// releases it a second time, and no record of it is written out.
pub proof fn lemma_released_for_good(slots: BufferSlots, events: Seq<BufferEvent>, peer: usize)
    requires
        is_released(slots, peer),
    ensures
        is_released(after_all(slots, events), peer),
        releases(slots, events, peer) == 0,
        registrations(slots, events, peer) == 0,
    decreases events.len(),
{
    if events.len() > 0 {
        lemma_released_for_good(after(slots, events[0]), events.drop_first(), peer);
    }
}

/// Nothing is read after the finalizer ran: whatever happens to the table
/// after a buffer has left it, no record with the buffer's peer describes a
/// buffer of the table, so that no element is found through such a record,
/// however many copies of it there are.
pub proof fn lemma_no_element_after_release(
    slots: BufferSlots,
    events: Seq<BufferEvent>,
    record: ExternalTypedData,
)
    requires
        is_released(slots, record.peer),
    ensures
        !describes(after_all(slots, events), record),
        !registers(after_all(slots, events), BufferEvent::Register(record)),
{
    lemma_released_for_good(slots, events, record.peer);
}

/// Finalizer singularity: of all that can happen to a table, in any order and
/// with any peer any number of times, at most one event releases the buffer
/// of a given peer.
pub proof fn lemma_released_at_most_once(slots: BufferSlots, events: Seq<BufferEvent>, peer: usize)
    ensures
        releases(slots, events, peer) <= 1,
    decreases events.len(),
{
    if events.len() > 0 {
        if events[0] == BufferEvent::Finalize(peer) && is_live(slots, peer) {
            lemma_released_for_good(after(slots, events[0]), events.drop_first(), peer);
        } else {
            lemma_released_at_most_once(after(slots, events[0]), events.drop_first(), peer);
        }
    }
}

/// A record that was written out is not written out again: whatever happens
/// to the table after that, no event writes a record with its peer out.
pub proof fn lemma_registered_for_good(slots: BufferSlots, events: Seq<BufferEvent>, peer: usize)
    requires
        is_registered(slots, peer) || is_released(slots, peer),
    ensures
        registrations(slots, events, peer) == 0,
    decreases events.len(),
{
    if events.len() > 0 {
        lemma_registered_for_good(after(slots, events[0]), events.drop_first(), peer);
    }
}

/// One registration for each buffer: of all that can happen to a table, at
/// most one event writes the record of the buffer of a given peer out for the
/// host. So the host is owed at most one call of the finalizer with the peer.
pub proof fn lemma_registered_at_most_once(
    slots: BufferSlots,
    events: Seq<BufferEvent>,
    peer: usize,
)
    ensures
        registrations(slots, events, peer) <= 1,
    decreases events.len(),
{
    if events.len() > 0 {
        if registers(slots, events[0]) && events[0]->Register_0.peer == peer {
            lemma_registered_for_good(after(slots, events[0]), events.drop_first(), peer);
        } else {
            lemma_registered_at_most_once(after(slots, events[0]), events.drop_first(), peer);
        }
    }
}

/// The table of the buffers that were handed to the host.
pub struct ExternalBuffers {
    slots: Vec<Option<HeldBuffer>>,
}

impl View for ExternalBuffers {
    type V = BufferSlots;

    closed spec fn view(&self) -> BufferSlots {
        self.slots@
    }
}

impl ExternalBuffers {
    /// A table that holds nothing.
    pub fn new() -> (buffers: Self)
        ensures
            buffers@ == Seq::<Option<HeldBuffer>>::empty(),
    {
        Self { slots: Vec::new() }
    }

    /// Takes `data` into the table, with the address of its first element and
    /// the address of its finalizer, and gives the peer by which the finalizer
    /// finds it: a peer that was never given before.
    pub fn hand_over(&mut self, data: TypedBuffer, address: usize, callback: usize) -> (peer: usize)
        ensures
            final(self)@ == after(old(self)@, BufferEvent::Create(data, address, callback)),
            peer == old(self)@.len() + 1,
            is_live(final(self)@, peer),
            !is_registered(final(self)@, peer),
    {
        self.slots.push(Some(HeldBuffer { data, address, callback, registered: false }));
        self.slots.len()
    }

    /// Asks to write `record` out for the host, which makes the host call the
    /// finalizer with its peer one day. The answer is yes once for each
    /// buffer that the table holds, and only for the record that describes
    /// it; after that, and for any other record, it is no.
    pub fn register(&mut self, record: &ExternalTypedData) -> (granted: bool)
        ensures
            granted == registers(old(self)@, BufferEvent::Register(*record)),
            final(self)@ == after(old(self)@, BufferEvent::Register(*record)),
            granted ==> is_registered(final(self)@, record.peer),
    {
        let peer: usize = record.peer;
        if peer == 0 || peer > self.slots.len() {
            return false;
        }
        let mut slot: Option<HeldBuffer> = None;
        std::mem::swap(&mut self.slots[peer - 1], &mut slot);
        let (granted, slot) = match slot {
            Some(held) => {
                let fits = record.type_ == held.data.element_type() && record.length >= 0
                    && record.length as usize == held.data.len() && record.data == held.address
                    && record.callback == held.callback;
                if fits && !held.registered {
                    (
                        true,
                        Some(
                            HeldBuffer {
                                data: held.data,
                                address: held.address,
                                callback: held.callback,
                                registered: true,
                            },
                        ),
                    )
                } else {
                    (false, Some(held))
                }
            },
            None => (false, None),
        };
        let mut slot = slot;
        std::mem::swap(&mut self.slots[peer - 1], &mut slot);
        proof {
            if !granted {
                assert(self.slots@ =~= old(self).slots@);
            }
        }
        granted
    }

    /// What the finalizer does when the host calls it with `peer`: it takes
    /// the buffer of that peer out of the table, for the caller to drop. A
    /// peer that names no buffer, or one whose buffer has been released,
    /// releases nothing and leaves the table as it is.
    pub fn finalize(&mut self, peer: usize) -> (released: Option<TypedBuffer>)
        ensures
            final(self)@ == after(old(self)@, BufferEvent::Finalize(peer)),
            released == released_by(old(self)@, BufferEvent::Finalize(peer)),
            !is_live(final(self)@, peer),
    {
        if peer == 0 || peer > self.slots.len() {
            return None;
        }
        let mut slot: Option<HeldBuffer> = None;
        std::mem::swap(&mut self.slots[peer - 1], &mut slot);
        proof {
            if slot is None {
                assert(self.slots@ =~= old(self).slots@);
            }
        }
        match slot {
            Some(held) => Some(held.data),
            None => None,
        }
    }

    /// The buffer of `peer`, while the table holds it.
    pub fn get(&self, peer: usize) -> (buffer: Option<&TypedBuffer>)
        ensures
            buffer is Some <==> is_live(self@, peer),
            buffer matches Some(data) ==> *data == self@[peer - 1]->Some_0.data,
    {
        if peer == 0 || peer > self.slots.len() {
            return None;
        }
        match &self.slots[peer - 1] {
            Some(held) => Some(&held.data),
            None => None,
        }
    }

    /// Whether `record` is the record of a buffer that the table still holds.
    pub fn describes(&self, record: &ExternalTypedData) -> (fits: bool)
        ensures
            fits == describes(self@, *record),
    {
        let peer: usize = record.peer;
        if peer == 0 || peer > self.slots.len() {
            return false;
        }
        match &self.slots[peer - 1] {
            Some(held) => record.type_ == held.data.element_type() && record.length >= 0
                && record.length as usize == held.data.len() && record.data == held.address
                && record.callback == held.callback,
            None => false,
        }
    }
}

impl TypedDataArray {
    /// Hands `data` over to the host's collector. The buffer moves into
    /// `buffers`; what comes back describes it to the host: its element type
    /// and length, the address `address` of its first element, its fresh peer,
    /// and the address `callback` of the finalizer that the host must call
    /// with the peer. A finalizer there must be: its address is not null.
    pub fn create(
        buffers: &mut ExternalBuffers,
        data: TypedBuffer,
        address: usize,
        callback: usize,
    ) -> (array: Self)
        requires
            callback != 0,
            data.len() <= isize::MAX,
        ensures
            final(buffers)@ == after(old(buffers)@, BufferEvent::Create(data, address, callback)),
            array matches TypedDataArray::WithFinalizer(record) && record.type_
                == data.element_type() && record.length == data.len() && record.data == address
                && record.callback == callback && record.callback != 0 && record.peer == old(
                buffers,
            )@.len() + 1,
            array matches TypedDataArray::WithFinalizer(record) && describes(
                final(buffers)@,
                record,
            ) && !is_registered(final(buffers)@, record.peer),
            array matches TypedDataArray::WithFinalizer(record) && final(buffers)@[record.peer
                - 1]->Some_0.data == data,
    {
        let type_ = data.element_type();
        let length: isize = data.len() as isize;
        let peer: usize = buffers.hand_over(data, address, callback);
        TypedDataArray::WithFinalizer(
            ExternalTypedData { type_, length, data: address, peer, callback },
        )
    }

    /// Where the element at `idx` may be read or written: where it lies, going
    /// by what the buffer declares, as long as the memory is there to be used.
    /// That is taken on trust of a buffer of the host, for the time of the
    /// call that brought it. Of a buffer with a finalizer it holds only while
    /// `buffers` holds the buffer that the record describes: once the
    /// finalizer has run, there is no element any more.
    pub fn index(self, buffers: &ExternalBuffers, idx: usize) -> (address: Option<usize>)
        ensures
            address == (if self matches TypedDataArray::WithFinalizer(record) && !describes(
                buffers@,
                record,
            ) {
                None
            } else {
                self.spec_element_address(idx)
            }),
    {
        match self {
            TypedDataArray::WithoutFinalizer(_) => self.element_address(idx),
            TypedDataArray::WithFinalizer(record) => {
                if buffers.describes(&record) {
                    self.element_address(idx)
                } else {
                    None
                }
            },
        }
    }
}

} // verus!
