use dart::dart_cobject::{CObject, HostCObject, Owner};
use dart::dart_handle::{Error, ErrorKind, UnverifiedDartHandle};
use dart::dispatch::{
    async_arguments, init_result, AsyncVerdict, InitStep, PanicPayload, ServiceAction,
    ServiceEvent, ServiceFailure, ServiceSetup, SyncVerdict,
};
use dart::{catch_async_panic, catch_panic_hook, catch_panic_hook_async, init};

fn api_message(outcome: Result<(), PanicPayload>) -> Vec<u8> {
    match catch_panic_hook(outcome) {
        SyncVerdict::PropagateApiError(message) => message.into_bytes(),
        SyncVerdict::Return => panic!("a panic returned"),
    }
}

#[test]
fn a_call_that_came_back_returns() {
    assert!(matches!(catch_panic_hook(Ok(())), SyncVerdict::Return));
}

#[test]
fn a_panic_with_a_string_becomes_an_api_error_with_that_message() {
    let message = api_message(Err(PanicPayload::Text(String::from("X"))));
    assert_eq!(message, b"X".to_vec());
    let message = api_message(Err(PanicPayload::Text(format!("index {} out of range", 4))));
    assert_eq!(message, b"index 4 out of range".to_vec());
}

#[test]
fn a_panic_with_a_literal_becomes_an_api_error_with_that_message() {
    let message = api_message(Err(PanicPayload::Literal("Invalid message data!")));
    assert_eq!(message, b"Invalid message data!".to_vec());
}

#[test]
fn a_panic_with_anything_else_gets_the_fixed_message() {
    let message = api_message(Err(PanicPayload::Other));
    assert_eq!(message, b"Panic of unknown nature in Rust code!".to_vec());
    assert_eq!(PanicPayload::Other.message(), "Panic of unknown nature in Rust code!");
}

#[test]
fn a_panic_message_with_a_zero_byte_is_propagated_up_to_that_byte() {
    let message = api_message(Err(PanicPayload::Text(String::from("a\0b"))));
    assert_eq!(message, b"a".to_vec());
    let message = api_message(Err(PanicPayload::Literal("\0")));
    assert_eq!(message, Vec::<u8>::new());
    let message = api_message(Err(PanicPayload::Text(String::from("no port\0\0"))));
    assert_eq!(message, b"no port".to_vec());
}

#[test]
fn every_panic_becomes_an_api_error() {
    let payloads = vec![
        PanicPayload::Text(String::new()),
        PanicPayload::Text(String::from("\0\0")),
        PanicPayload::Literal("X"),
        PanicPayload::Other,
    ];
    for payload in payloads {
        assert!(matches!(catch_panic_hook(Err(payload)), SyncVerdict::PropagateApiError(_)));
    }
}

#[test]
fn an_async_handler_that_came_back_goes_on() {
    assert_eq!(catch_async_panic(&Ok(())), AsyncVerdict::Continue);
}

#[test]
fn an_async_handler_that_panicked_aborts() {
    assert_eq!(catch_async_panic(&Err(PanicPayload::Other)), AsyncVerdict::Abort);
    assert_eq!(catch_async_panic(&Err(PanicPayload::Literal("X"))), AsyncVerdict::Abort);
    assert_eq!(
        catch_async_panic(&Err(PanicPayload::Text(String::from("X")))),
        AsyncVerdict::Abort
    );
}

#[test]
fn an_async_handler_gets_the_message_and_the_port() {
    let message = HostCObject::Array(vec![HostCObject::Int32(3)], Owner::Host);
    match async_arguments(message, 12) {
        Some((CObject::Array(items), port)) => {
            assert!(matches!(items[0], CObject::Int32(3)));
            assert_eq!(port.port(), 12);
        }
        _ => panic!("nothing to call the handler with"),
    }
}

#[test]
fn an_async_handler_is_not_called_without_a_port_or_a_value() {
    assert!(async_arguments(HostCObject::Null, 0).is_none());
    assert!(async_arguments(HostCObject::Unsupported, 12).is_none());
    assert!(async_arguments(HostCObject::Capability(1), 0).is_none());
}

fn called(name: &str) -> (ServiceSetup, Vec<ServiceAction>) {
    let state = ServiceSetup::Start;
    let event = ServiceEvent::Called { name: String::from(name) };
    assert!(state.expects(&event));
    catch_panic_hook_async(state, event)
}

#[test]
fn the_service_port_is_set_up_in_three_steps() {
    let (state, actions) = called("randomArrayServicePort");
    assert!(matches!(state, ServiceSetup::AwaitNativePort));
    assert_eq!(actions.len(), 2);
    assert!(matches!(actions[0], ServiceAction::EnterScope));
    match &actions[1] {
        ServiceAction::NewNativePort { name, handle_concurrently } => {
            assert_eq!(name.as_bytes(), b"randomArrayServicePort");
            assert!(*handle_concurrently);
        }
        _ => panic!("no native port was asked for"),
    }

    let event = ServiceEvent::NativePort(5);
    assert!(state.expects(&event));
    let (state, actions) = catch_panic_hook_async(state, event);
    assert!(matches!(&state, ServiceSetup::AwaitSendPort { port } if port.port() == 5));
    assert_eq!(actions.len(), 1);
    assert!(matches!(actions[0], ServiceAction::NewSendPort { port: 5 }));

    let event = ServiceEvent::SendPort(Ok(UnverifiedDartHandle::new(0x50)));
    assert!(state.expects(&event));
    let (state, actions) = catch_panic_hook_async(state, event);
    assert!(matches!(state, ServiceSetup::Done));
    assert_eq!(actions.len(), 2);
    assert!(matches!(&actions[0], ServiceAction::SetReturn { send_port } if send_port.handle() == 0x50));
    assert!(matches!(actions[1], ServiceAction::ExitScope));
}

#[test]
fn a_name_with_a_zero_byte_leaves_the_scope_and_panics() {
    let (state, actions) = called("bad\0name");
    assert!(matches!(state, ServiceSetup::Done));
    assert_eq!(actions.len(), 3);
    assert!(matches!(actions[0], ServiceAction::EnterScope));
    assert!(matches!(actions[1], ServiceAction::ExitScope));
    match &actions[2] {
        ServiceAction::Panic(ServiceFailure::InvalidName(error)) => {
            assert_eq!(error.nul_position(), 3)
        }
        _ => panic!("no panic"),
    }
}

#[test]
fn a_refused_native_port_leaves_the_scope_and_panics() {
    let (state, _) = called("service");
    let (state, actions) = catch_panic_hook_async(state, ServiceEvent::NativePort(0));
    assert!(matches!(state, ServiceSetup::Done));
    assert_eq!(actions.len(), 2);
    assert!(matches!(actions[0], ServiceAction::ExitScope));
    assert!(matches!(actions[1], ServiceAction::Panic(ServiceFailure::NoNativePort)));
}

#[test]
fn a_send_port_that_was_not_made_leaves_the_scope_and_panics() {
    let (state, _) = called("service");
    let (state, _) = catch_panic_hook_async(state, ServiceEvent::NativePort(5));
    let error = Error::of(UnverifiedDartHandle::new(0x60), ErrorKind::Api);
    let (state, actions) = catch_panic_hook_async(state, ServiceEvent::SendPort(Err(error)));
    assert!(matches!(state, ServiceSetup::Done));
    assert_eq!(actions.len(), 2);
    assert!(matches!(actions[0], ServiceAction::ExitScope));
    match &actions[1] {
        ServiceAction::Panic(ServiceFailure::NoSendPort(error)) => {
            assert_eq!(error.handle(), 0x60);
            assert_eq!(error.kind(), ErrorKind::Api);
        }
        _ => panic!("no panic"),
    }
}

fn scopes(actions: &[ServiceAction]) -> i32 {
    actions
        .iter()
        .map(|action| match action {
            ServiceAction::EnterScope => 1,
            ServiceAction::ExitScope => -1,
            _ => 0,
        })
        .sum()
}

#[test]
fn every_way_through_the_set_up_leaves_the_scope_once() {
    for (id, made) in [(0i64, true), (5, true), (5, false)] {
        let mut all = Vec::new();
        let (state, actions) = called("service");
        all.extend(actions);
        let (state, actions) = catch_panic_hook_async(state, ServiceEvent::NativePort(id));
        all.extend(actions);
        if let ServiceSetup::AwaitSendPort { .. } = state {
            let answer = if made {
                Ok(UnverifiedDartHandle::new(0x50))
            } else {
                Err(Error::of(UnverifiedDartHandle::new(0x60), ErrorKind::Api))
            };
            let (_, actions) = catch_panic_hook_async(state, ServiceEvent::SendPort(answer));
            all.extend(actions);
        }
        assert_eq!(scopes(&all), 0);
        let panics = matches!(all.last(), Some(ServiceAction::Panic(_)));
        let returns = all.iter().any(|action| matches!(action, ServiceAction::SetReturn { .. }));
        assert_ne!(panics, returns);
    }
    let (_, actions) = called("bad\0name");
    assert_eq!(scopes(&actions), 0);
}

#[test]
fn the_set_up_waits_for_one_event_at_a_time() {
    let start = ServiceSetup::Start;
    assert!(start.expects(&ServiceEvent::Called { name: String::new() }));
    assert!(!start.expects(&ServiceEvent::NativePort(1)));
    assert!(!start.expects(&ServiceEvent::SendPort(Ok(UnverifiedDartHandle::new(1)))));
    let waiting = ServiceSetup::AwaitNativePort;
    assert!(waiting.expects(&ServiceEvent::NativePort(1)));
    assert!(!waiting.expects(&ServiceEvent::Called { name: String::new() }));
    let done = ServiceSetup::Done;
    assert!(!done.expects(&ServiceEvent::NativePort(1)));
    assert!(!done.expects(&ServiceEvent::Called { name: String::new() }));
}

#[test]
fn an_error_for_a_library_is_returned_as_it_is() {
    let error = Error::of(UnverifiedDartHandle::new(0x70), ErrorKind::Compilation);
    match init(Err(error)) {
        InitStep::Return(handle) => assert_eq!(handle.handle(), 0x70),
        InitStep::Register { .. } => panic!("an error was taken for a library"),
    }
}

#[test]
fn a_library_gets_its_resolvers() {
    match init(Ok(UnverifiedDartHandle::new(0x80))) {
        InitStep::Register { library } => assert_eq!(library.handle(), 0x80),
        InitStep::Return(_) => panic!("a library was taken for an error"),
    }
}

#[test]
fn initialisation_ends_with_null_or_with_the_error() {
    let null = UnverifiedDartHandle::new(0x1);
    let answer = UnverifiedDartHandle::new(0x90);
    assert_eq!(init_result(Ok(answer), null).handle(), 0x1);
    let error = Error::of(UnverifiedDartHandle::new(0xa0), ErrorKind::Api);
    assert_eq!(init_result(Err(error), null).handle(), 0xa0);
}
