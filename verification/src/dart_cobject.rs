//! The values that cross a message channel, on either side of it: `CObject`
//! as native code holds them, `HostCObject` as the tagged record that the
//! virtual machine reads and writes, and the conversions between the two.

use crate::c_string::CStringBytes;
use crate::dart_handle::{spec_illegal_port, Port};
use vstd::pervasive::unreached;
use vstd::prelude::*;

verus! {

/// Who answers for a block of memory that a record refers to.
#[derive(Clone, Copy, Debug, PartialEq, Eq, Structural)]
pub enum Owner {
    /// The virtual machine: it allocated the block, or the block was released
    /// to it and native code has forgotten it.
    Host,
    /// Native code: the record only looks at the block, for as long as the
    /// value that it was made from is borrowed.
    Native,
}

/// The element type of a typed buffer.
#[derive(Clone, Copy, Debug, PartialEq, Eq, Structural)]
pub enum TypedDataType {
    ByteData,
    Int8,
    Uint8,
    Uint8Clamped,
    Int16,
    Uint16,
    Int32,
    Uint32,
    Int64,
    Uint64,
    Float32,
    Float64,
    Float32x4,
    Invalid,
}

impl TypedDataType {
    /// The number of bytes that one element of the type takes; zero for the
    /// type that stands for no type.
    pub open spec fn spec_element_size(self) -> usize {
        match self {
            TypedDataType::ByteData => 1,
            TypedDataType::Int8 => 1,
            TypedDataType::Uint8 => 1,
            TypedDataType::Uint8Clamped => 1,
            TypedDataType::Int16 => 2,
            TypedDataType::Uint16 => 2,
            TypedDataType::Int32 => 4,
            TypedDataType::Uint32 => 4,
            TypedDataType::Int64 => 8,
            TypedDataType::Uint64 => 8,
            TypedDataType::Float32 => 4,
            TypedDataType::Float64 => 8,
            TypedDataType::Float32x4 => 16,
            TypedDataType::Invalid => 0,
        }
    }

    /// The number of bytes that one element of the type takes.
    #[verifier::when_used_as_spec(spec_element_size)]
    pub fn element_size(self) -> (size: usize)
        ensures
            size == self.spec_element_size(),
    {
        match self {
            TypedDataType::ByteData => 1,
            TypedDataType::Int8 => 1,
            TypedDataType::Uint8 => 1,
            TypedDataType::Uint8Clamped => 1,
            TypedDataType::Int16 => 2,
            TypedDataType::Uint16 => 2,
            TypedDataType::Int32 => 4,
            TypedDataType::Uint32 => 4,
            TypedDataType::Int64 => 8,
            TypedDataType::Uint64 => 8,
            TypedDataType::Float32 => 4,
            TypedDataType::Float64 => 8,
            TypedDataType::Float32x4 => 16,
            TypedDataType::Invalid => 0,
        }
    }
}

/// The address of a channel endpoint and of the endpoint that it came from.
#[derive(Clone, Copy, Debug, PartialEq, Eq, Structural)]
pub struct SendPort {
    pub id: i64,
    pub origin_id: i64,
}

/// A reference to a channel endpoint, as it travels inside a message.
#[derive(Clone, Copy, Debug)]
pub struct Sender(pub SendPort);

/// A buffer that the virtual machine allocated and owns. `values` is the
/// address of its first byte; native code only looks at it.
#[derive(Clone, Copy, Debug, PartialEq, Eq, Structural)]
pub struct HostTypedData {
    pub type_: TypedDataType,
    pub length: isize,
    pub values: usize,
}

/// A natively allocated buffer that has been handed to the virtual machine.
/// `data` is the address of its first byte, `peer` the capability by which the
/// finalizer at the address `callback` finds the buffer again to release it.
#[derive(Clone, Copy, Debug, PartialEq, Eq, Structural)]
pub struct ExternalTypedData {
    pub type_: TypedDataType,
    pub length: isize,
    pub data: usize,
    pub peer: usize,
    pub callback: usize,
}

/// A typed buffer inside a message, in one of its two ownership modes.
#[derive(Clone, Copy, Debug, PartialEq, Eq, Structural)]
pub enum TypedDataArray {
    /// The virtual machine owns the buffer; no finalizer is attached.
    WithoutFinalizer(HostTypedData),
    /// Native code allocated the buffer; its finalizer is the one way it is
    /// released.
    WithFinalizer(ExternalTypedData),
}

impl TypedDataArray {
    /// Wraps a buffer of the virtual machine.
    pub fn new(arr: HostTypedData) -> (array: TypedDataArray)
        ensures
            array == TypedDataArray::WithoutFinalizer(arr),
    {
        TypedDataArray::WithoutFinalizer(arr)
    }

    /// Wraps a buffer that carries a finalizer.
    pub fn new_external(arr: ExternalTypedData) -> (array: TypedDataArray)
        ensures
            array == TypedDataArray::WithFinalizer(arr),
    {
        TypedDataArray::WithFinalizer(arr)
    }

    /// The element type that the buffer declares.
    pub open spec fn spec_element_type(self) -> TypedDataType {
        match self {
            TypedDataArray::WithoutFinalizer(arr) => arr.type_,
            TypedDataArray::WithFinalizer(arr) => arr.type_,
        }
    }

    /// The length that the buffer declares.
    pub open spec fn spec_length(self) -> isize {
        match self {
            TypedDataArray::WithoutFinalizer(arr) => arr.length,
            TypedDataArray::WithFinalizer(arr) => arr.length,
        }
    }

    /// The element type that the buffer declares.
    #[verifier::when_used_as_spec(spec_element_type)]
    pub fn element_type(self) -> (element: TypedDataType)
        ensures
            element == self.spec_element_type(),
    {
        match self {
            TypedDataArray::WithoutFinalizer(arr) => arr.type_,
            TypedDataArray::WithFinalizer(arr) => arr.type_,
        }
    }

    /// The length that the buffer declares.
    #[verifier::when_used_as_spec(spec_length)]
    pub fn length(self) -> (length: isize)
        ensures
            length == self.spec_length(),
    {
        match self {
            TypedDataArray::WithoutFinalizer(arr) => arr.length,
            TypedDataArray::WithFinalizer(arr) => arr.length,
        }
    }

    /// The buffer as one of elements of type `element`, if that is the type
    /// that it declares.
    pub fn cast(self, element: TypedDataType) -> (typed: Option<TypedDataArray>)
        ensures
            typed == (if self.element_type() == element {
                Some(self)
            } else {
                None
            }),
    {
        match self {
            TypedDataArray::WithFinalizer(x) => {
                if x.type_ == element {
                    Some(TypedDataArray::WithFinalizer(x))
                } else {
                    None
                }
            },
            TypedDataArray::WithoutFinalizer(x) => {
                if x.type_ == element {
                    Some(TypedDataArray::WithoutFinalizer(x))
                } else {
                    None
                }
            },
        }
    }

    /// The address of the first element.
    pub open spec fn spec_values(self) -> usize {
        match self {
            TypedDataArray::WithoutFinalizer(arr) => arr.values,
            TypedDataArray::WithFinalizer(arr) => arr.data,
        }
    }

    /// The address of the first element.
    #[verifier::when_used_as_spec(spec_values)]
    pub fn values(self) -> (address: usize)
        ensures
            address == self.spec_values(),
    {
        match self {
            TypedDataArray::WithoutFinalizer(arr) => arr.values,
            TypedDataArray::WithFinalizer(arr) => arr.data,
        }
    }

    /// Where the element at `idx` lies, going by what the buffer declares: as
    /// many elements behind the first as `idx` says. There is no such element
    /// from the declared length on, and none where its address would be no
    /// `usize`.
    pub open spec fn spec_element_address(self, idx: usize) -> Option<usize> {
        if idx < self.length() && self.values() + idx * self.element_type().element_size()
            <= usize::MAX {
            Some((self.values() + idx * self.element_type().element_size()) as usize)
        } else {
            None
        }
    }

    /// Where the element at `idx` lies, going by what the buffer declares.
    /// Whether anything may be read there is not said here.
    pub(crate) fn element_address(self, idx: usize) -> (address: Option<usize>)
        ensures
            address == self.spec_element_address(idx),
    {
        let length: isize = self.length();
        if length < 0 || idx >= length as usize {
            return None;
        }
        match idx.checked_mul(self.element_type().element_size()) {
            Some(offset) => self.values().checked_add(offset),
            None => None,
        }
    }
}

/// A value that crosses a message channel, as native code holds it.
pub enum CObject {
    Null,
    Bool(bool),
    Int32(i32),
    Int64(i64),
    /// A double, by the 64 bits of its encoding.
    Double(u64),
    String(CStringBytes),
    SendPort(Sender),
    /// The elements in their order.
    Array(Vec<CObject>),
    TypedData(TypedDataArray),
}

/// What a `CObject` holds.
pub enum CObjectView {
    Null,
    Bool(bool),
    Int32(i32),
    Int64(i64),
    Double(u64),
    String(Seq<u8>),
    SendPort(SendPort),
    Array(Seq<CObjectView>),
    TypedData(TypedDataArray),
}

/// A value that crosses a message channel, as the record that the virtual
/// machine reads and writes: one variant for each tag of the record, with what
/// the tag selects from it.
pub enum HostCObject {
    Null,
    Bool(bool),
    Int32(i32),
    Int64(i64),
    Double(u64),
    /// The bytes before the terminator, and who owns the block they lie in.
    String(CStringBytes, Owner),
    /// The elements in their order, and who owns the block of references to
    /// them.
    Array(Vec<HostCObject>, Owner),
    TypedData(HostTypedData),
    ExternalTypedData(ExternalTypedData),
    SendPort(SendPort),
    Capability(i64),
    Unsupported,
    NumberOfTypes,
}

/// What a `HostCObject` holds.
pub enum HostCObjectView {
    Null,
    Bool(bool),
    Int32(i32),
    Int64(i64),
    Double(u64),
    String(Seq<u8>, Owner),
    Array(Seq<HostCObjectView>, Owner),
    TypedData(HostTypedData),
    ExternalTypedData(ExternalTypedData),
    SendPort(SendPort),
    Capability(i64),
    Unsupported,
    NumberOfTypes,
}

impl View for CObject {
    type V = CObjectView;

    open spec fn view(&self) -> CObjectView {
        self.content()
    }
}

impl CObject {
    /// What the value holds, with all below it.
    pub open spec fn content(&self) -> CObjectView
        decreases self,
    {
        match self {
            CObject::Null => CObjectView::Null,
            CObject::Bool(x) => CObjectView::Bool(*x),
            CObject::Int32(x) => CObjectView::Int32(*x),
            CObject::Int64(x) => CObjectView::Int64(*x),
            CObject::Double(x) => CObjectView::Double(*x),
            CObject::String(x) => CObjectView::String(x@),
            CObject::SendPort(x) => CObjectView::SendPort(x.0),
            CObject::Array(x) => CObjectView::Array(
                Seq::new(
                    x@.len(),
                    |i: int|
                        if 0 <= i < x@.len() {
                            x@[i].content()
                        } else {
                            CObjectView::Null
                        },
                ),
            ),
            CObject::TypedData(x) => CObjectView::TypedData(*x),
        }
    }
}

impl View for HostCObject {
    type V = HostCObjectView;

    open spec fn view(&self) -> HostCObjectView {
        self.content()
    }
}

impl HostCObject {
    /// What the record holds, with all below it.
    pub open spec fn content(&self) -> HostCObjectView
        decreases self,
    {
        match self {
            HostCObject::Null => HostCObjectView::Null,
            HostCObject::Bool(x) => HostCObjectView::Bool(*x),
            HostCObject::Int32(x) => HostCObjectView::Int32(*x),
            HostCObject::Int64(x) => HostCObjectView::Int64(*x),
            HostCObject::Double(x) => HostCObjectView::Double(*x),
            HostCObject::String(x, owner) => HostCObjectView::String(x@, *owner),
            HostCObject::Array(x, owner) => HostCObjectView::Array(
                Seq::new(
                    x@.len(),
                    |i: int|
                        if 0 <= i < x@.len() {
                            x@[i].content()
                        } else {
                            HostCObjectView::Null
                        },
                ),
                *owner,
            ),
            HostCObject::TypedData(x) => HostCObjectView::TypedData(*x),
            HostCObject::ExternalTypedData(x) => HostCObjectView::ExternalTypedData(*x),
            HostCObject::SendPort(x) => HostCObjectView::SendPort(*x),
            HostCObject::Capability(x) => HostCObjectView::Capability(*x),
            HostCObject::Unsupported => HostCObjectView::Unsupported,
            HostCObject::NumberOfTypes => HostCObjectView::NumberOfTypes,
        }
    }
}

impl HostCObjectView {
    /// Whether native code has a value for the record: neither the record nor
    /// any element below it is a capability, unsupported, or the count of the
    /// tags.
    pub open spec fn supported(self) -> bool
        decreases self,
    {
        match self {
            HostCObjectView::Capability(_) => false,
            HostCObjectView::Unsupported => false,
            HostCObjectView::NumberOfTypes => false,
            HostCObjectView::Array(values, _) => forall|i: int|
                0 <= i < values.len() ==> (#[trigger] values[i]).supported(),
            _ => true,
        }
    }

    /// The native value of a supported record: scalars by value, the bytes of
    /// a string, the elements of an array in their order, a buffer in the
    /// ownership mode that its tag names. Of a record that is not supported
    /// nothing is said.
    pub open spec fn ingest(self) -> CObjectView
        decreases self,
    {
        match self {
            HostCObjectView::Null => CObjectView::Null,
            HostCObjectView::Bool(x) => CObjectView::Bool(x),
            HostCObjectView::Int32(x) => CObjectView::Int32(x),
            HostCObjectView::Int64(x) => CObjectView::Int64(x),
            HostCObjectView::Double(x) => CObjectView::Double(x),
            HostCObjectView::String(bytes, _) => CObjectView::String(bytes),
            HostCObjectView::Array(values, _) => CObjectView::Array(
                Seq::new(
                    values.len(),
                    |i: int|
                        if 0 <= i < values.len() {
                            values[i].ingest()
                        } else {
                            CObjectView::Null
                        },
                ),
            ),
            HostCObjectView::TypedData(x) => CObjectView::TypedData(
                TypedDataArray::WithoutFinalizer(x),
            ),
            HostCObjectView::ExternalTypedData(x) => CObjectView::TypedData(
                TypedDataArray::WithFinalizer(x),
            ),
            HostCObjectView::SendPort(x) => CObjectView::SendPort(x),
            HostCObjectView::Capability(_) => arbitrary(),
            HostCObjectView::Unsupported => arbitrary(),
            HostCObjectView::NumberOfTypes => arbitrary(),
        }
    }
}

impl CObjectView {
    /// The record of a native value. Every block of element references
    /// belongs to the host; the bytes of every string belong to `strings`.
    pub open spec fn export(self, strings: Owner) -> HostCObjectView
        decreases self,
    {
        match self {
            CObjectView::Null => HostCObjectView::Null,
            CObjectView::Bool(x) => HostCObjectView::Bool(x),
            CObjectView::Int32(x) => HostCObjectView::Int32(x),
            CObjectView::Int64(x) => HostCObjectView::Int64(x),
            CObjectView::Double(x) => HostCObjectView::Double(x),
            CObjectView::String(bytes) => HostCObjectView::String(bytes, strings),
            CObjectView::SendPort(x) => HostCObjectView::SendPort(x),
            CObjectView::Array(values) => HostCObjectView::Array(
                Seq::new(
                    values.len(),
                    |i: int|
                        if 0 <= i < values.len() {
                            values[i].export(strings)
                        } else {
                            HostCObjectView::Null
                        },
                ),
                Owner::Host,
            ),
            CObjectView::TypedData(TypedDataArray::WithoutFinalizer(x)) => {
                HostCObjectView::TypedData(x)
            },
            CObjectView::TypedData(TypedDataArray::WithFinalizer(x)) => {
                HostCObjectView::ExternalTypedData(x)
            },
        }
    }
}

impl HostCObject {
    /// Whether native code has a value for the record.
    pub fn is_supported(&self) -> (supported: bool)
        ensures
            supported == self@.supported(),
        decreases self,
    {
        match self {
            HostCObject::Capability(_) => false,
            HostCObject::Unsupported => false,
            HostCObject::NumberOfTypes => false,
            HostCObject::Array(values, owner) => {
                let ghost views = self@->Array_0;
                let mut i: usize = 0;
                while i < values.len()
                    invariant
                        i <= values.len(),
                        self@ == HostCObjectView::Array(views, *owner),
                        views.len() == values@.len(),
                        forall|j: int| 0 <= j < views.len() ==> views[j] == values@[j]@,
                        forall|j: int| 0 <= j < values@.len() ==> decreases_to!(self => values@[j]),
                        forall|j: int| 0 <= j < i ==> (#[trigger] views[j]).supported(),
                    decreases values.len() - i,
                {
                    if !values[i].is_supported() {
                        assert(!views[i as int].supported());
                        assert(self@->Array_0 == views);
                        return false;
                    }
                    i += 1;
                }
                true
            },
            _ => true,
        }
    }
}

impl CObject {
    /// The native value of a record that the host supplied. Scalars are
    /// copied, the bytes of a string become the value's own, and the elements
    /// of an array are converted in their order, each with all below it.
    pub fn from(host: HostCObject) -> (object: CObject)
        requires
            host@.supported(),
        ensures
            object@ == host@.ingest(),
        decreases host,
    {
        match host {
            HostCObject::Null => CObject::Null,
            HostCObject::Bool(x) => CObject::Bool(x),
            HostCObject::Int32(x) => CObject::Int32(x),
            HostCObject::Int64(x) => CObject::Int64(x),
            HostCObject::Double(x) => CObject::Double(x),
            HostCObject::SendPort(x) => CObject::SendPort(Sender(x)),
            HostCObject::String(bytes, _) => CObject::String(bytes),
            HostCObject::Array(values, _) => {
                let ghost views = host@->Array_0;
                let ghost items = values@;
                let mut elements: Vec<CObject> = Vec::new();
                for value in it: values
                    invariant
                        it.seq() == items,
                        views.len() == items.len(),
                        forall|j: int| 0 <= j < views.len() ==> views[j] == items[j]@,
                        forall|j: int| 0 <= j < views.len() ==> (#[trigger] views[j]).supported(),
                        forall|j: int| 0 <= j < items.len() ==> decreases_to!(host => items[j]),
                        elements@.len() == it.index(),
                        forall|j: int|
                            0 <= j < elements@.len() ==> (#[trigger] elements@[j])@
                                == views[j].ingest(),
                {
                    assert(views[it.index() as int].supported());
                    elements.push(CObject::from(value));
                }
                let object = CObject::Array(elements);
                assert(object@->Array_0 =~= host@.ingest()->Array_0);
                object
            },
            HostCObject::TypedData(x) => CObject::TypedData(TypedDataArray::new(x)),
            HostCObject::ExternalTypedData(x) => CObject::TypedData(
                TypedDataArray::new_external(x),
            ),
            HostCObject::Capability(_) => unreached(),
            HostCObject::Unsupported => unreached(),
            HostCObject::NumberOfTypes => unreached(),
        }
    }
}

impl CObject {
    /// The record by which the value is handed to the host for good: what a
    /// post across a channel takes. The value is used up. The host answers
    /// from then on for the bytes of every string and for every block of
    /// element references.
    pub fn into_leak(self) -> (record: HostCObject)
        ensures
            record@ == self@.export(Owner::Host),
        decreases self,
    {
        match self {
            CObject::Null => HostCObject::Null,
            CObject::Bool(x) => HostCObject::Bool(x),
            CObject::Int32(x) => HostCObject::Int32(x),
            CObject::Int64(x) => HostCObject::Int64(x),
            CObject::Double(x) => HostCObject::Double(x),
            CObject::TypedData(x) => {
                match x {
                    TypedDataArray::WithoutFinalizer(x) => HostCObject::TypedData(x),
                    TypedDataArray::WithFinalizer(x) => HostCObject::ExternalTypedData(x),
                }
            },
            CObject::SendPort(Sender(x)) => HostCObject::SendPort(x),
            CObject::Array(x) => {
                let ghost views = self@->Array_0;
                let ghost items = x@;
                let mut records: Vec<HostCObject> = Vec::new();
                for item in it: x
                    invariant
                        it.seq() == items,
                        views.len() == items.len(),
                        forall|j: int| 0 <= j < views.len() ==> views[j] == items[j]@,
                        forall|j: int| 0 <= j < items.len() ==> decreases_to!(self => items[j]),
                        records@.len() == it.index(),
                        forall|j: int|
                            0 <= j < records@.len() ==> (#[trigger] records@[j])@
                                == views[j].export(Owner::Host),
                {
                    records.push(item.into_leak());
                }
                let record = HostCObject::Array(records, Owner::Host);
                assert(record@->Array_0 =~= self@.export(Owner::Host)->Array_0);
                record
            },
            CObject::String(cstring) => HostCObject::String(cstring, Owner::Host),
        }
    }

    /// A record of the value for one call into the host that keeps nothing of
    /// it. The value stays with the caller and is borrowed for as long as the
    /// result lives. The bytes of every string remain the value's own; the
    /// blocks of element references are made anew and belong to the host.
    pub fn as_non_leak(&self) -> (lock: CObjectLock<'_>)
        ensures
            lock.object()@ == self@.export(Owner::Native),
            lock.source() == self,
        decreases self,
    {
        let obj = match self {
            CObject::Null => HostCObject::Null,
            CObject::Bool(x) => HostCObject::Bool(*x),
            CObject::Int32(x) => HostCObject::Int32(*x),
            CObject::Int64(x) => HostCObject::Int64(*x),
            CObject::Double(x) => HostCObject::Double(*x),
            CObject::TypedData(x) => {
                match x {
                    TypedDataArray::WithoutFinalizer(x) => HostCObject::TypedData(*x),
                    TypedDataArray::WithFinalizer(x) => HostCObject::ExternalTypedData(*x),
                }
            },
            CObject::SendPort(Sender(x)) => HostCObject::SendPort(*x),
            CObject::Array(x) => {
                let ghost views = self@->Array_0;
                let mut records: Vec<HostCObject> = Vec::new();
                let mut i: usize = 0;
                while i < x.len()
                    invariant
                        i <= x.len(),
                        views.len() == x@.len(),
                        forall|j: int| 0 <= j < views.len() ==> views[j] == x@[j]@,
                        forall|j: int| 0 <= j < x@.len() ==> decreases_to!(self => x@[j]),
                        records@.len() == i,
                        forall|j: int|
                            0 <= j < records@.len() ==> (#[trigger] records@[j])@
                                == views[j].export(Owner::Native),
                    decreases x.len() - i,
                {
                    records.push(x[i].as_non_leak().object);
                    i += 1;
                }
                let record = HostCObject::Array(records, Owner::Host);
                assert(record@->Array_0 =~= self@.export(Owner::Native)->Array_0);
                record
            },
            CObject::String(cstring) => HostCObject::String(cstring.duplicate(), Owner::Native),
        };
        CObjectLock::new(self, obj)
    }
}

/// A record made from a borrowed value, with the borrow that keeps the value
/// in place while the record is in use.
pub struct CObjectLock<'a> {
    _rust_cobject: &'a CObject,
    object: HostCObject,
}

impl<'a> CObjectLock<'a> {
    /// The value that the record was made from.
    pub closed spec fn source(&self) -> &'a CObject {
        self._rust_cobject
    }

    /// The record.
    pub closed spec fn object(&self) -> HostCObject {
        self.object
    }

    /// Ties `object` to the value that it was made from.
    pub fn new(rust_cobject: &'a CObject, object: HostCObject) -> (lock: Self)
        ensures
            lock.source() == rust_cobject,
            lock.object() == object,
    {
        Self { _rust_cobject: rust_cobject, object }
    }

    /// The record, to hand to the host.
    pub fn record(&self) -> (record: &HostCObject)
        ensures
            *record == self.object(),
    {
        &self.object
    }

    /// The endpoint on which the record is posted when it is sent to
    /// `sender`. There is none where `sender` holds the id that names no
    /// endpoint: nothing is posted then, and the post counts as failed.
    pub fn post_onto(&self, sender: &Sender) -> (destination: Option<Port>)
        ensures
            sender.0.id == spec_illegal_port() <==> destination is None,
            destination matches Some(port) ==> port@ == sender.0.id,
    {
        Port::from_port(sender.0.id)
    }
}

/// A native value has a record that native code has a value for.
pub proof fn lemma_export_supported(value: CObjectView, strings: Owner)
    ensures
        value.export(strings).supported(),
    decreases value,
{
    match value {
        CObjectView::Array(values) => {
            let exported = value.export(strings)->Array_0;
            assert forall|i: int| 0 <= i < exported.len() implies (#[trigger] exported[i]).supported() by {
                lemma_export_supported(values[i], strings);
            }
        },
        _ => {},
    }
}

/// Round trip: the record of a native value is read back as that value,
/// whoever owns its strings. Arrays compare element by element in their
/// order, scalars by value, buffers by what they declare.
pub proof fn lemma_export_ingest(value: CObjectView, strings: Owner)
    ensures
        value.export(strings).ingest() == value,
    decreases value,
{
    match value {
        CObjectView::Array(values) => {
            let exported = value.export(strings)->Array_0;
            let ingested = value.export(strings).ingest()->Array_0;
            assert forall|i: int| 0 <= i < values.len() implies #[trigger] ingested[i]
                == values[i] by {
                lemma_export_ingest(values[i], strings);
            }
            assert(ingested =~= values);
        },
        _ => {},
    }
}

} // verus!
