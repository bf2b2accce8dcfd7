//! The boundary at which the host calls native code: what becomes of a call
//! that panicked, how the service port of an asynchronous function is set
//! up, and how the module is initialised.
//!
//! A panic never crosses the boundary. Behind a synchronous call it becomes
//! an API error that is propagated into the host; behind an asynchronous
//! message, where no call of the host waits for an answer, it ends the
//! process.

use crate::c_string::{is_first_nul, nul_free, until_nul, CStringBytes, NulError};
use crate::dart_cobject::{CObject, HostCObject};
use crate::dart_handle::{
    result_safe_handle, spec_illegal_port, Error, NativePort, Port, UnverifiedDartHandle,
    HANDLE_CONCURRENTLY,
};
use vstd::prelude::*;
use vstd::string::StringSliceAdditionalSpecFns;
use vstd::utf8::encode_utf8;

verus! {

/// What a panic carried.
pub enum PanicPayload {
    /// A string that was put together at run time.
    Text(String),
    /// A string literal.
    Literal(&'static str),
    /// Anything else.
    Other,
}

impl PanicPayload {
    /// The message of the panic: the string that it carried, or a fixed text
    /// where it carried none.
    pub open spec fn spec_message(&self) -> Seq<u8> {
        match self {
            PanicPayload::Text(x) => encode_utf8(x@),
            PanicPayload::Literal(x) => x.spec_bytes(),
            PanicPayload::Other => "Panic of unknown nature in Rust code!".spec_bytes(),
        }
    }

    /// The message of the panic.
    pub fn message(&self) -> (msg: &str)
        ensures
            msg.spec_bytes() == self.spec_message(),
    {
        match self {
            PanicPayload::Text(x) => x.as_str(),
            PanicPayload::Literal(x) => x,
            PanicPayload::Other => "Panic of unknown nature in Rust code!",
        }
    }
}

/// What the boundary owes the host after a synchronous call.
pub enum SyncVerdict {
    /// The call returns to the host as any call does.
    Return,
    /// An API error with this message is made and propagated into the host;
    /// the call does not return.
    PropagateApiError(CStringBytes),
}

/// What becomes of a synchronous call. `outcome` tells whether the native
/// function came back or panicked. A function that came back returns to the
/// host. One that panicked becomes an API error, whatever it panicked with:
/// the message of the error is the message of the panic as a C string holds
/// it, which is all of it where it has no zero byte and what stands before
/// the first zero byte where it has one.
pub fn catch_panic_hook(outcome: Result<(), PanicPayload>) -> (verdict: SyncVerdict)
    ensures
        outcome is Ok ==> verdict is Return,
        outcome matches Err(payload) ==> (verdict matches SyncVerdict::PropagateApiError(message)
            && message@ == until_nul(payload.spec_message())),
        outcome matches Err(payload) ==> (nul_free(payload.spec_message()) ==> (
        verdict matches SyncVerdict::PropagateApiError(message) && message@
            == payload.spec_message())),
{
    match outcome {
        Ok(_) => SyncVerdict::Return,
        Err(e) => {
            let msg = e.message();
            SyncVerdict::PropagateApiError(CStringBytes::until_nul_of_str(msg))
        },
    }
}

/// What the boundary does after the handler of an asynchronous message.
#[derive(Clone, Copy, Debug, PartialEq, Eq, Structural)]
pub enum AsyncVerdict {
    /// The handler came back; the worker of the host goes on.
    Continue,
    /// The handler panicked; the process is ended at once.
    Abort,
}

/// What becomes of the handler of an asynchronous message: a handler that
/// panicked ends the process, whatever it panicked with.
pub fn catch_async_panic(outcome: &Result<(), PanicPayload>) -> (verdict: AsyncVerdict)
    ensures
        verdict == (if outcome is Ok {
            AsyncVerdict::Continue
        } else {
            AsyncVerdict::Abort
        }),
{
    if outcome.is_err() {
        AsyncVerdict::Abort
    } else {
        AsyncVerdict::Continue
    }
}

/// What the handler of an asynchronous message is called with: the native
/// value of the message and the endpoint that the message came to. There is
/// nothing to call it with where native code has no value for the message or
/// where the id names no endpoint; the boundary treats that as a panic of the
/// handler.
pub fn async_arguments(message: HostCObject, port: i64) -> (arguments: Option<(CObject, Port)>)
    ensures
        arguments is Some <==> message@.supported() && port != spec_illegal_port(),
        arguments matches Some((object, endpoint)) ==> object@ == message@.ingest() && endpoint@
            == port,
{
    if !message.is_supported() {
        return None;
    }
    let object = CObject::from(message);
    match Port::from_port(port) {
        Some(endpoint) => Some((object, endpoint)),
        None => None,
    }
}

/// How far the service port of an asynchronous function has been set up.
pub enum ServiceSetup {
    /// Nothing has been done.
    Start,
    /// A scope is open and the host was asked for a native port.
    AwaitNativePort,
    /// A scope is open and the host was asked for a send port to `port`.
    AwaitSendPort { port: NativePort },
    /// Nothing is left to do.
    Done,
}

/// What the set-up of a service port is told.
pub enum ServiceEvent {
    /// The host called the function; the service is to be named `name`.
    Called { name: String },
    /// The host answered the request for a native port with this id.
    NativePort(i64),
    /// The host answered the request for a send port: with the handle of the
    /// send port as it was looked at.
    SendPort(Result<UnverifiedDartHandle, Error>),
}

/// Why the set-up of a service port failed.
pub enum ServiceFailure {
    /// The name holds a zero byte.
    InvalidName(NulError),
    /// The host opened no native port under the name.
    NoNativePort,
    /// The host made no send port.
    NoSendPort(Error),
}

/// One thing that the set-up of a service port has the caller do.
pub enum ServiceAction {
    /// Enter a scope of the host.
    EnterScope,
    /// Leave the scope of the host.
    ExitScope,
    /// Ask the host for a native port named `name` that delivers to the
    /// handler; `handle_concurrently` says that the host may run the handler
    /// on several of its threads at once.
    NewNativePort { name: CStringBytes, handle_concurrently: bool },
    /// Ask the host for a send port to the port with this id.
    NewSendPort { port: i64 },
    /// Set the handle as the value that the call returns.
    SetReturn { send_port: UnverifiedDartHandle },
    /// Panic; the boundary of the synchronous call turns that into an API
    /// error.
    Panic(ServiceFailure),
}

impl ServiceSetup {
    /// Whether `event` is what the set-up waits for.
    pub open spec fn spec_expects(&self, event: &ServiceEvent) -> bool {
        match (self, event) {
            (ServiceSetup::Start, ServiceEvent::Called { .. }) => true,
            (ServiceSetup::AwaitNativePort, ServiceEvent::NativePort(_)) => true,
            (ServiceSetup::AwaitSendPort { .. }, ServiceEvent::SendPort(_)) => true,
            _ => false,
        }
    }

    /// Whether `event` is what the set-up waits for.
    #[verifier::when_used_as_spec(spec_expects)]
    pub fn expects(&self, event: &ServiceEvent) -> (expected: bool)
        ensures
            expected == self.spec_expects(event),
    {
        match (self, event) {
            (ServiceSetup::Start, ServiceEvent::Called { .. }) => true,
            (ServiceSetup::AwaitNativePort, ServiceEvent::NativePort(_)) => true,
            (ServiceSetup::AwaitSendPort { .. }, ServiceEvent::SendPort(_)) => true,
            _ => false,
        }
    }
}

/// By how many the open scopes have grown when `actions` are done in their
/// order.
pub open spec fn scopes_left_open(actions: Seq<ServiceAction>) -> int
    decreases actions.len(),
{
    if actions.len() == 0 {
        0
    } else {
        scopes_left_open(actions.drop_last()) + (match actions.last() {
            ServiceAction::EnterScope => 1int,
            ServiceAction::ExitScope => -1int,
            _ => 0int,
        })
    }
}

/// Whether `next`, a state and the actions that lead to it, is what one step
/// of the set-up makes of `state` and `event`.
///
/// The set-up enters a scope and asks for a native port under the name, which
/// the host may serve on several threads at once; with the port it asks for a
/// send port; with the send port it sets the return value and leaves the
/// scope. Where it fails, because the name has a zero byte, because the host
/// refused the native port, or because no send port could be made, it leaves
/// the scope and panics, and sets no return value.
pub open spec fn spec_step(
    state: ServiceSetup,
    event: ServiceEvent,
    next: (ServiceSetup, Seq<ServiceAction>),
) -> bool {
    match (state, event) {
        (ServiceSetup::Start, ServiceEvent::Called { name }) => if nul_free(encode_utf8(name@)) {
            &&& next.0 is AwaitNativePort
            &&& next.1.len() == 2
            &&& next.1[0] is EnterScope
            &&& next.1[1] matches ServiceAction::NewNativePort { name: c_name, handle_concurrently }
            &&& c_name@ == encode_utf8(name@)
            &&& handle_concurrently == HANDLE_CONCURRENTLY
        } else {
            &&& next.0 is Done
            &&& next.1.len() == 3
            &&& next.1[0] is EnterScope
            &&& next.1[1] is ExitScope
            &&& next.1[2] matches ServiceAction::Panic(ServiceFailure::InvalidName(error))
            &&& is_first_nul(encode_utf8(name@), error.position())
        },
        (ServiceSetup::AwaitNativePort, ServiceEvent::NativePort(id)) => if id
            != spec_illegal_port() {
            &&& next.0 matches ServiceSetup::AwaitSendPort { port }
            &&& port@ == id
            &&& next.1.len() == 1
            &&& next.1[0] matches ServiceAction::NewSendPort { port }
            &&& port == id
        } else {
            &&& next.0 is Done
            &&& next.1.len() == 2
            &&& next.1[0] is ExitScope
            &&& next.1[1] matches ServiceAction::Panic(ServiceFailure::NoNativePort)
        },
        (ServiceSetup::AwaitSendPort { .. }, ServiceEvent::SendPort(Ok(handle))) => {
            &&& next.0 is Done
            &&& next.1.len() == 2
            &&& next.1[0] matches ServiceAction::SetReturn { send_port }
            &&& send_port == handle
            &&& next.1[1] is ExitScope
        },
        (ServiceSetup::AwaitSendPort { .. }, ServiceEvent::SendPort(Err(error))) => {
            &&& next.0 is Done
            &&& next.1.len() == 2
            &&& next.1[0] is ExitScope
            &&& next.1[1] matches ServiceAction::Panic(ServiceFailure::NoSendPort(e))
            &&& e == error
        },
        _ => false,
    }
}

/// One step of the set-up of a service port: what becomes of the set-up when
/// it is told `event`, and what the caller has to do, in this order, before
/// it tells the next event.
pub fn catch_panic_hook_async(state: ServiceSetup, event: ServiceEvent) -> (next: (
    ServiceSetup,
    Vec<ServiceAction>,
))
    requires
        state.expects(&event),
    ensures
        spec_step(state, event, (next.0, next.1@)),
{
    let mut actions: Vec<ServiceAction> = Vec::new();
    match event {
        ServiceEvent::Called { name } => {
            actions.push(ServiceAction::EnterScope);
            match CStringBytes::from_str(name.as_str()) {
                Ok(name) => {
                    actions.push(
                        ServiceAction::NewNativePort {
                            name,
                            handle_concurrently: HANDLE_CONCURRENTLY,
                        },
                    );
                    (ServiceSetup::AwaitNativePort, actions)
                },
                Err(e) => {
                    actions.push(ServiceAction::ExitScope);
                    actions.push(ServiceAction::Panic(ServiceFailure::InvalidName(e)));
                    (ServiceSetup::Done, actions)
                },
            }
        },
        ServiceEvent::NativePort(id) => {
            match NativePort::new_native(id) {
                Some(service_port) => {
                    actions.push(ServiceAction::NewSendPort { port: service_port.port() });
                    (ServiceSetup::AwaitSendPort { port: service_port }, actions)
                },
                None => {
                    actions.push(ServiceAction::ExitScope);
                    actions.push(ServiceAction::Panic(ServiceFailure::NoNativePort));
                    (ServiceSetup::Done, actions)
                },
            }
        },
        ServiceEvent::SendPort(made) => {
            match made {
                Ok(send_port_instance) => {
                    actions.push(ServiceAction::SetReturn { send_port: send_port_instance });
                    actions.push(ServiceAction::ExitScope);
                    (ServiceSetup::Done, actions)
                },
                Err(e) => {
                    actions.push(ServiceAction::ExitScope);
                    actions.push(ServiceAction::Panic(ServiceFailure::NoSendPort(e)));
                    (ServiceSetup::Done, actions)
                },
            }
        },
    }
}

/// The scopes that a sequence of actions leaves open are those that its two
/// parts leave open, taken together.
pub proof fn lemma_scopes_add_up(first: Seq<ServiceAction>, second: Seq<ServiceAction>)
    ensures
        scopes_left_open(first + second) == scopes_left_open(first) + scopes_left_open(second),
    decreases second.len(),
{
    if second.len() == 0 {
        assert(first + second =~= first);
    } else {
        lemma_scopes_add_up(first, second.drop_last());
        assert((first + second).drop_last() =~= first + second.drop_last());
    }
}

/// Scope balance: a set-up that runs from its start to its end leaves the
/// scope that it entered, exactly once and whichever way it ends; and one
/// that ends in a panic has set no return value. `steps` holds what each
/// step led to, and `events` what each step was told.
pub proof fn lemma_scopes_balance(
    events: Seq<ServiceEvent>,
    steps: Seq<(ServiceSetup, Seq<ServiceAction>)>,
)
    requires
        0 < steps.len() == events.len(),
        spec_step(ServiceSetup::Start, events[0], steps[0]),
        forall|i: int| 0 < i < steps.len() ==> spec_step(steps[i - 1].0, events[i], #[trigger] steps[i]),
        steps.last().0 is Done,
    ensures
        steps.len() <= 3,
        scopes_left_open(all_actions(steps)) == 0,
        all_actions(steps).last() is Panic ==> forall|k: int|
            0 <= k < all_actions(steps).len() ==> !(#[trigger] all_actions(steps)[k] is SetReturn),
{
    reveal_with_fuel(scopes_left_open, 4);
    reveal_with_fuel(all_actions, 4);
    // A set-up is done after one, two or three steps; the scopes of the
    // steps add up.
    lemma_scopes_add_up(Seq::<ServiceAction>::empty(), steps[0].1);
    if !(steps[0].0 is Done) {
        lemma_scopes_add_up(all_actions(steps.take(1)), steps[1].1);
        if !(steps[1].0 is Done) {
            lemma_scopes_add_up(all_actions(steps.take(2)), steps[2].1);
        }
    }
}

/// The actions of `steps`, one step after the other.
pub open spec fn all_actions(steps: Seq<(ServiceSetup, Seq<ServiceAction>)>) -> Seq<ServiceAction>
    decreases steps.len(),
{
    if steps.len() == 0 {
        Seq::empty()
    } else {
        all_actions(steps.drop_last()) + steps.last().1
    }
}

/// What the initialisation of the module does after it has looked at the
/// library that loads it.
pub enum InitStep {
    /// It gives up and returns this handle, which stands for an error.
    Return(UnverifiedDartHandle),
    /// It fills the register and sets the resolvers of this library.
    Register { library: UnverifiedDartHandle },
}

/// The first step of the initialisation. `parent_library` is the library
/// that loads the module, as it was looked at: an error is returned to the
/// host as it is, and anything else is the library to set the resolvers of.
pub fn init(parent_library: Result<UnverifiedDartHandle, Error>) -> (step: InitStep)
    ensures
        parent_library matches Ok(library) ==> step == (InitStep::Register { library }),
        parent_library matches Err(error) ==> step == InitStep::Return(error.safe_handle()),
{
    if parent_library.is_err() {
        return InitStep::Return(result_safe_handle(&parent_library));
    }
    InitStep::Register { library: result_safe_handle(&parent_library) }
}

/// The handle that the initialisation returns to the host after it has set
/// the resolvers. `result_code` is what the host answered, as it was looked
/// at, and `null` the handle of the host's null object: null says that all
/// went well, and an error is returned as it is.
pub fn init_result(
    result_code: Result<UnverifiedDartHandle, Error>,
    null: UnverifiedDartHandle,
) -> (handle: UnverifiedDartHandle)
    ensures
        result_code is Ok ==> handle == null,
        result_code matches Err(error) ==> handle == error.safe_handle(),
{
    match result_code {
        Ok(_) => null,
        Err(error) => error.safe_handle(),
    }
}

} // verus!
