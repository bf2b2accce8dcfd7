use dart::c_string::CStringBytes;
use dart::dart_cobject::{
    CObject, ExternalTypedData, HostCObject, HostTypedData, Owner, SendPort, Sender,
    TypedDataArray, TypedDataType,
};

fn text(bytes: &[u8]) -> CStringBytes {
    match CStringBytes::new(bytes.to_vec()) {
        Ok(string) => string,
        Err(_) => panic!("zero byte in a test string"),
    }
}

fn host_buffer() -> HostTypedData {
    HostTypedData { type_: TypedDataType::Uint8, length: 16, values: 0x1000 }
}

fn external_buffer() -> ExternalTypedData {
    ExternalTypedData {
        type_: TypedDataType::Int32,
        length: 4,
        data: 0x2000,
        peer: 1,
        callback: 0x3000,
    }
}

/// Structural equality of two native values: arrays element by element in
/// their order, scalars by value.
fn same(a: &CObject, b: &CObject) -> bool {
    match (a, b) {
        (CObject::Null, CObject::Null) => true,
        (CObject::Bool(x), CObject::Bool(y)) => x == y,
        (CObject::Int32(x), CObject::Int32(y)) => x == y,
        (CObject::Int64(x), CObject::Int64(y)) => x == y,
        (CObject::Double(x), CObject::Double(y)) => x == y,
        (CObject::String(x), CObject::String(y)) => x.as_bytes() == y.as_bytes(),
        (CObject::SendPort(Sender(x)), CObject::SendPort(Sender(y))) => x == y,
        (CObject::Array(x), CObject::Array(y)) => {
            x.len() == y.len() && x.iter().zip(y.iter()).all(|(p, q)| same(p, q))
        }
        (CObject::TypedData(x), CObject::TypedData(y)) => x == y,
        _ => false,
    }
}

fn sample() -> CObject {
    CObject::Array(vec![
        CObject::Null,
        CObject::Bool(true),
        CObject::Int32(-7),
        CObject::Int64(1 << 40),
        CObject::Double(1.5f64.to_bits()),
        CObject::String(text(b"caf\xc3\xa9")),
        CObject::SendPort(Sender(SendPort { id: 3, origin_id: 4 })),
        CObject::Array(vec![CObject::Array(vec![]), CObject::Int32(1), CObject::Int32(2)]),
        CObject::TypedData(TypedDataArray::WithFinalizer(external_buffer())),
    ])
}

#[test]
fn scalars_survive_the_round_trip() {
    assert!(matches!(CObject::from(CObject::Null.into_leak()), CObject::Null));
    assert!(matches!(CObject::from(CObject::Bool(false).into_leak()), CObject::Bool(false)));
    assert!(matches!(CObject::from(CObject::Int32(-7).into_leak()), CObject::Int32(-7)));
    assert!(matches!(
        CObject::from(CObject::Int64(i64::MIN).into_leak()),
        CObject::Int64(i64::MIN)
    ));
    let bits = (-0.0f64).to_bits();
    match CObject::from(CObject::Double(bits).into_leak()) {
        CObject::Double(x) => assert_eq!(x, bits),
        _ => panic!("not a Double"),
    }
}

#[test]
fn nan_survives_the_round_trip_bit_for_bit() {
    let bits = f64::NAN.to_bits() | 0x5;
    match CObject::from(CObject::Double(bits).into_leak()) {
        CObject::Double(x) => assert_eq!(x, bits),
        _ => panic!("not a Double"),
    }
}

#[test]
fn tree_survives_the_round_trip() {
    let back = CObject::from(sample().into_leak());
    assert!(same(&back, &sample()));
}

#[test]
fn tree_survives_the_borrowed_round_trip() {
    let value = sample();
    let lock = value.as_non_leak();
    let record = match lock.record() {
        HostCObject::Array(items, owner) => {
            assert_eq!(*owner, Owner::Host);
            assert_eq!(items.len(), 9);
            items.len()
        }
        _ => panic!("not an Array"),
    };
    assert_eq!(record, 9);
    assert!(same(&value, &sample()));
}

#[test]
fn array_keeps_its_order() {
    let value = CObject::Array(vec![
        CObject::Int64(1),
        CObject::String(text(b"two")),
        CObject::SendPort(Sender(SendPort { id: 3, origin_id: 4 })),
    ]);
    let record = value.into_leak();
    assert!(record.is_supported());
    match CObject::from(record) {
        CObject::Array(items) => {
            assert_eq!(items.len(), 3);
            assert!(matches!(items[0], CObject::Int64(1)));
            match &items[1] {
                CObject::String(s) => assert_eq!(s.as_bytes(), b"two"),
                _ => panic!("not a String"),
            }
            match &items[2] {
                CObject::SendPort(Sender(p)) => assert_eq!((p.id, p.origin_id), (3, 4)),
                _ => panic!("not a SendPort"),
            }
        }
        _ => panic!("not an Array"),
    }
}

#[test]
fn empty_array_survives_the_round_trip() {
    match CObject::from(CObject::Array(vec![]).into_leak()) {
        CObject::Array(items) => assert!(items.is_empty()),
        _ => panic!("not an Array"),
    }
}

#[test]
fn leaked_export_hands_everything_to_the_host() {
    let value = CObject::Array(vec![CObject::String(text(b"a")), CObject::Array(vec![])]);
    match value.into_leak() {
        HostCObject::Array(items, owner) => {
            assert_eq!(owner, Owner::Host);
            match &items[0] {
                HostCObject::String(bytes, owner) => {
                    assert_eq!(bytes.as_bytes(), b"a");
                    assert_eq!(*owner, Owner::Host);
                }
                _ => panic!("not a String"),
            }
            assert!(matches!(&items[1], HostCObject::Array(inner, Owner::Host) if inner.is_empty()));
        }
        _ => panic!("not an Array"),
    }
}

#[test]
fn borrowed_export_keeps_the_strings_native() {
    let value = CObject::Array(vec![CObject::String(text(b"a")), CObject::Array(vec![])]);
    let lock = value.as_non_leak();
    match lock.record() {
        HostCObject::Array(items, owner) => {
            assert_eq!(*owner, Owner::Host);
            match &items[0] {
                HostCObject::String(bytes, owner) => {
                    assert_eq!(bytes.as_bytes(), b"a");
                    assert_eq!(*owner, Owner::Native);
                }
                _ => panic!("not a String"),
            }
            assert!(matches!(&items[1], HostCObject::Array(inner, Owner::Host) if inner.is_empty()));
        }
        _ => panic!("not an Array"),
    }
    match &value {
        CObject::Array(items) => assert_eq!(items.len(), 2),
        _ => panic!("the value changed"),
    }
}

#[test]
fn buffers_are_exported_under_the_tag_of_their_mode() {
    let host = CObject::TypedData(TypedDataArray::WithoutFinalizer(host_buffer()));
    assert!(matches!(host.into_leak(), HostCObject::TypedData(x) if x == host_buffer()));
    let native = CObject::TypedData(TypedDataArray::WithFinalizer(external_buffer()));
    assert!(matches!(
        native.into_leak(),
        HostCObject::ExternalTypedData(x) if x == external_buffer()
    ));
}

#[test]
fn buffers_are_ingested_in_the_mode_of_their_tag() {
    match CObject::from(HostCObject::TypedData(host_buffer())) {
        CObject::TypedData(x) => assert_eq!(x, TypedDataArray::WithoutFinalizer(host_buffer())),
        _ => panic!("not a TypedData"),
    }
    match CObject::from(HostCObject::ExternalTypedData(external_buffer())) {
        CObject::TypedData(x) => assert_eq!(x, TypedDataArray::WithFinalizer(external_buffer())),
        _ => panic!("not a TypedData"),
    }
}

#[test]
fn ingest_ignores_who_owns_a_string() {
    for owner in [Owner::Host, Owner::Native] {
        match CObject::from(HostCObject::String(text(b"same"), owner)) {
            CObject::String(s) => assert_eq!(s.as_bytes(), b"same"),
            _ => panic!("not a String"),
        }
    }
}

#[test]
fn capability_is_not_supported() {
    assert!(!HostCObject::Capability(9).is_supported());
}

#[test]
fn unsupported_tags_are_not_supported() {
    assert!(!HostCObject::Unsupported.is_supported());
    assert!(!HostCObject::NumberOfTypes.is_supported());
}

#[test]
fn one_unsupported_element_spoils_the_array() {
    let record = HostCObject::Array(
        vec![
            HostCObject::Int32(1),
            HostCObject::Array(vec![HostCObject::Null, HostCObject::Unsupported], Owner::Host),
        ],
        Owner::Host,
    );
    assert!(!record.is_supported());
    let fine = HostCObject::Array(
        vec![
            HostCObject::Int32(1),
            HostCObject::Array(vec![HostCObject::Null], Owner::Host),
            HostCObject::SendPort(SendPort { id: 1, origin_id: 2 }),
        ],
        Owner::Host,
    );
    assert!(fine.is_supported());
}

#[test]
fn cast_asks_for_the_declared_element_type() {
    let array = TypedDataArray::new(host_buffer());
    assert_eq!(array.cast(TypedDataType::Uint8), Some(array));
    assert_eq!(array.cast(TypedDataType::Int8), None);
    let external = TypedDataArray::new_external(external_buffer());
    assert_eq!(external.cast(TypedDataType::Int32), Some(external));
    assert_eq!(external.cast(TypedDataType::Float32), None);
    assert_eq!(external.element_type(), TypedDataType::Int32);
    assert_eq!(external.length(), 4);
}

#[test]
fn a_record_is_posted_to_the_sender_it_names() {
    let value = CObject::Int32(5);
    let lock = value.as_non_leak();
    let to = lock.post_onto(&Sender(SendPort { id: 77, origin_id: 1 }));
    assert_eq!(to.map(|port| port.port()), Some(77));
}

#[test]
fn nothing_is_posted_to_the_illegal_port() {
    let value = CObject::Int32(5);
    let lock = value.as_non_leak();
    assert!(lock.post_onto(&Sender(SendPort { id: 0, origin_id: 1 })).is_none());
}
