use dart::dart_cobject::{CObject, HostCObject, Owner};
use dart::dart_handle::{
    result_safe_handle, Error, ErrorKind, ErrorTests, NativePort, Port,
    UnverifiedDartHandle, HANDLE_CONCURRENTLY,
};
use dart::dart_handle::RangeBound::{Excluded, Included, Unbounded};

fn tests(
    is_error: bool,
    is_unhandled_exception: bool,
    is_api: bool,
    is_compilation: bool,
    is_fatal: bool,
) -> ErrorTests {
    ErrorTests { is_error, is_unhandled_exception, is_api, is_compilation, is_fatal }
}

#[test]
fn a_handle_that_is_no_error_is_a_value() {
    let handle = UnverifiedDartHandle::new(0x10);
    let checked = handle.get_error(tests(false, false, false, false, false));
    assert_eq!(checked.ok().map(|h| h.handle()), Some(0x10));
}

#[test]
fn kind_tests_do_not_count_for_a_handle_that_is_no_error() {
    let handle = UnverifiedDartHandle::new(0x10);
    let checked = handle.get_error(tests(false, true, true, true, true));
    assert!(checked.is_ok());
}

#[test]
fn each_kind_is_told_by_its_test() {
    let cases = [
        (tests(true, true, false, false, false), ErrorKind::UnhandledException),
        (tests(true, false, true, false, false), ErrorKind::Api),
        (tests(true, false, false, true, false), ErrorKind::Compilation),
        (tests(true, false, false, false, true), ErrorKind::Fatal),
    ];
    for (answers, kind) in cases {
        assert!(answers.classifiable());
        let error = UnverifiedDartHandle::new(0x20).get_error(answers).err().expect("an error");
        assert_eq!(error.kind(), kind);
        assert_eq!(error.handle(), 0x20);
        assert_eq!(error.safe_handle().handle(), 0x20);
    }
}

#[test]
fn the_first_test_that_passes_wins() {
    assert_eq!(tests(true, true, true, true, true).kind(), Some(ErrorKind::UnhandledException));
    assert_eq!(tests(true, false, true, true, true).kind(), Some(ErrorKind::Api));
    assert_eq!(tests(true, false, false, true, true).kind(), Some(ErrorKind::Compilation));
    assert_eq!(tests(true, false, false, false, true).kind(), Some(ErrorKind::Fatal));
    assert_eq!(tests(true, false, false, false, false).kind(), None);
}

#[test]
fn an_error_of_no_kind_does_not_fit() {
    assert!(!tests(true, false, false, false, false).classifiable());
    assert!(tests(false, false, false, false, false).classifiable());
}

#[test]
fn only_an_unhandled_exception_has_an_exception() {
    let exception = UnverifiedDartHandle::new(0x30);
    let trace = UnverifiedDartHandle::new(0x40);
    let thrown = Error::of(UnverifiedDartHandle::new(0x20), ErrorKind::UnhandledException);
    assert_eq!(thrown.get_exception(exception).map(|h| h.handle()), Some(0x30));
    assert_eq!(thrown.get_stack_trace(trace).map(|h| h.handle()), Some(0x40));
    for kind in [ErrorKind::Api, ErrorKind::Compilation, ErrorKind::Fatal] {
        let other = Error::of(UnverifiedDartHandle::new(0x20), kind);
        assert!(other.get_exception(exception).is_none());
        assert!(other.get_stack_trace(trace).is_none());
    }
}

#[test]
fn an_error_that_native_code_raises_has_its_kind_from_the_start() {
    let handle = UnverifiedDartHandle::new(0x50);
    assert_eq!(Error::new_api(handle).kind(), ErrorKind::Api);
    assert_eq!(Error::new_api(handle).handle(), 0x50);
    assert_eq!(Error::new_compilation(handle).kind(), ErrorKind::Compilation);
    assert_eq!(Error::new_compilation(handle).handle(), 0x50);
    assert_eq!(Error::new_unhandled_exception(handle).kind(), ErrorKind::UnhandledException);
    assert_eq!(Error::new_unhandled_exception(handle).handle(), 0x50);
}

#[test]
fn from_handle_turns_the_result_round() {
    let value = UnverifiedDartHandle::new(0x10);
    assert_eq!(Error::from_handle(Ok(value)).err().map(|h| h.handle()), Some(0x10));
    let error = Error::of(UnverifiedDartHandle::new(0x20), ErrorKind::Fatal);
    let told = Error::from_handle(Err(error)).ok().expect("an error");
    assert_eq!(told.kind(), ErrorKind::Fatal);
    assert_eq!(told.handle(), 0x20);
}

#[test]
fn the_handle_behind_a_result() {
    let value = UnverifiedDartHandle::new(0x10);
    assert_eq!(result_safe_handle(&Ok(value)).handle(), 0x10);
    let error = Error::of(UnverifiedDartHandle::new(0x20), ErrorKind::Api);
    assert_eq!(result_safe_handle(&Err(error)).handle(), 0x20);
    assert_eq!(value.safe_handle().handle(), 0x10);
}

#[test]
fn null_under_a_key_is_nothing() {
    let value = UnverifiedDartHandle::new(0x10);
    let found = UnverifiedDartHandle::map_get_at(Ok(value), false).ok().expect("no error");
    assert_eq!(found.map(|h| h.handle()), Some(0x10));
    let found = UnverifiedDartHandle::map_get_at(Ok(value), true).ok().expect("no error");
    assert!(found.is_none());
    for is_null in [false, true] {
        let error = Error::of(UnverifiedDartHandle::new(0x20), ErrorKind::Api);
        let failed = UnverifiedDartHandle::map_get_at(Err(error), is_null).err().expect("an error");
        assert_eq!(failed.handle(), 0x20);
    }
}

#[test]
fn the_illegal_port_is_no_endpoint() {
    assert!(Port::from_port(0).is_none());
    assert!(NativePort::new_native(0).is_none());
}

#[test]
fn the_illegal_port_is_the_one_of_the_binding() {
    assert!(Port::from_port(dart_sys::ILLEGAL_PORT).is_none());
}

#[test]
fn every_other_id_is_an_endpoint() {
    for id in [1i64, -1, 42, i64::MAX, i64::MIN] {
        assert_eq!(Port::from_port(id).map(|port| port.port()), Some(id));
        assert_eq!(NativePort::new_native(id).map(|port| port.port()), Some(id));
    }
}

#[test]
fn a_value_is_posted_as_its_leaked_record() {
    let port = Port::from_port(9).expect("an endpoint");
    let value = CObject::Array(vec![CObject::Int32(1), CObject::Null]);
    let (to, message) = port.post_cobject(value);
    assert_eq!(to, 9);
    match message {
        HostCObject::Array(items, owner) => {
            assert_eq!(owner, Owner::Host);
            assert!(matches!(items[0], HostCObject::Int32(1)));
            assert!(matches!(items[1], HostCObject::Null));
        }
        _ => panic!("not an Array"),
    }
}

#[test]
fn native_ports_are_served_concurrently() {
    assert!(HANDLE_CONCURRENTLY);
}

#[test]
fn list_ranges() {
    let range = UnverifiedDartHandle::list_get_range;
    assert_eq!(range(Included(2), Excluded(5), 10), Some((2, 3)));
    assert_eq!(range(Included(2), Included(5), 10), Some((2, 4)));
    assert_eq!(range(Unbounded, Unbounded, 10), Some((0, 10)));
    assert_eq!(range(Excluded(2), Unbounded, 10), Some((3, 7)));
    assert_eq!(range(Included(4), Excluded(4), 10), Some((4, 0)));
    assert_eq!(range(Unbounded, Unbounded, 0), Some((0, 0)));
}

#[test]
fn list_ranges_that_do_not_exist() {
    let range = UnverifiedDartHandle::list_get_range;
    assert_eq!(range(Included(5), Excluded(4), 10), None);
    assert_eq!(range(Excluded(usize::MAX), Unbounded, 10), None);
    assert_eq!(range(Unbounded, Included(usize::MAX), 10), None);
    assert_eq!(range(Included(11), Unbounded, 10), None);
    assert_eq!(range(Unbounded, Excluded(usize::MAX), 0), Some((0, usize::MAX)));
}
