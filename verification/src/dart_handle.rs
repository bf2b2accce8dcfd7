//! Handles of host objects and what native code decides about them: which
//! kind of error a handle stands for, which port ids name a channel
//! endpoint, which stretch of a list a range of indices names.

use crate::dart_cobject::{CObject, HostCObject, Owner};
use vstd::pervasive::unreached;
use vstd::prelude::*;

verus! {

/// The kinds of error that a handle can stand for.
#[derive(Copy, Clone, PartialEq, Eq, Debug, Structural)]
pub enum ErrorKind {
    /// Raised by native code or by the interface itself.
    Api,
    /// An exception that code of the host threw and nothing caught.
    UnhandledException,
    /// The host failed to compile code.
    Compilation,
    /// The virtual machine is in a state that it cannot leave.
    Fatal,
}

/// What the host answers when it is asked of a handle whether it is an
/// error, and of each kind of error whether the handle is of that kind.
#[derive(Copy, Clone, PartialEq, Eq, Debug, Structural)]
pub struct ErrorTests {
    pub is_error: bool,
    pub is_unhandled_exception: bool,
    pub is_api: bool,
    pub is_compilation: bool,
    pub is_fatal: bool,
}

impl ErrorTests {
    /// The kind that the answers give an error: that of the first test that
    /// the handle passed, asked in the order unhandled exception, API,
    /// compilation, fatal.
    pub open spec fn spec_kind(self) -> Option<ErrorKind> {
        if self.is_unhandled_exception {
            Some(ErrorKind::UnhandledException)
        } else if self.is_api {
            Some(ErrorKind::Api)
        } else if self.is_compilation {
            Some(ErrorKind::Compilation)
        } else if self.is_fatal {
            Some(ErrorKind::Fatal)
        } else {
            None
        }
    }

    /// Whether the answers fit together: a handle that is an error is of some
    /// kind.
    pub open spec fn spec_classifiable(self) -> bool {
        self.is_error ==> self.spec_kind() is Some
    }

    /// The kind that the answers give an error, if they give it one.
    #[verifier::when_used_as_spec(spec_kind)]
    pub fn kind(self) -> (kind: Option<ErrorKind>)
        ensures
            kind == self.spec_kind(),
    {
        if self.is_unhandled_exception {
            Some(ErrorKind::UnhandledException)
        } else if self.is_api {
            Some(ErrorKind::Api)
        } else if self.is_compilation {
            Some(ErrorKind::Compilation)
        } else if self.is_fatal {
            Some(ErrorKind::Fatal)
        } else {
            None
        }
    }

    /// Whether the answers fit together.
    #[verifier::when_used_as_spec(spec_classifiable)]
    pub fn classifiable(self) -> (fit: bool)
        ensures
            fit == self.spec_classifiable(),
    {
        !self.is_error || self.kind().is_some()
    }
}

/// A reference to an object of the host, by its address. It is never null,
/// owns nothing, and says nothing of how long the object lives.
#[derive(Copy, Clone, Debug)]
pub struct UnverifiedDartHandle {
    handle: usize,
}

impl View for UnverifiedDartHandle {
    type V = usize;

    closed spec fn view(&self) -> usize {
        self.handle
    }
}

impl UnverifiedDartHandle {
    #[verifier::type_invariant]
    spec fn not_null(self) -> bool {
        self.handle != 0
    }

    /// Wraps the reference at the address `handle`.
    pub fn new(handle: usize) -> (wrapped: Self)
        requires
            handle != 0,
        ensures
            wrapped@ == handle,
    {
        Self { handle }
    }

    /// The address of the reference; it is not null.
    pub fn handle(&self) -> (handle: usize)
        ensures
            handle == self@,
            handle != 0,
    {
        proof {
            use_type_invariant(self);
        }
        self.handle
    }

    /// The handle itself.
    pub fn safe_handle(&self) -> (handle: Self)
        ensures
            handle == *self,
    {
        *self
    }

    /// The handle as a value, or as the error that it stands for with the
    /// kind that `tests` gives it. `tests` holds the host's answers about
    /// this handle.
    pub fn get_error(self, tests: ErrorTests) -> (checked: Result<Self, Error>)
        requires
            tests.classifiable(),
        ensures
            !tests.is_error ==> checked == Ok::<Self, Error>(self),
            tests.is_error ==> (checked matches Err(error) && error.spec_safe_handle() == self
                && Some(error.spec_kind()) == tests.kind()),
    {
        if tests.is_error {
            match tests.kind() {
                Some(kind) => Err(Error::of(self, kind)),
                None => unreached(),
            }
        } else {
            Ok(self)
        }
    }

    /// What a map of the host holds under a key. `found` is the host's answer
    /// as it was looked at, and `is_null` the host's word on whether that
    /// answer is its null object, which stands for "nothing under this key".
    pub fn map_get_at(found: Result<Self, Error>, is_null: bool) -> (value: Result<
        Option<Self>,
        Error,
    >)
        ensures
            found matches Err(error) ==> value == Err::<Option<Self>, Error>(error),
            found matches Ok(handle) ==> value == Ok::<Option<Self>, Error>(
                if is_null {
                    None
                } else {
                    Some(handle)
                },
            ),
    {
        match found {
            Ok(x) => if is_null {
                Ok(None)
            } else {
                Ok(Some(x))
            },
            Err(e) => Err(e),
        }
    }

    /// The offset and the length of the stretch of a list that the range from
    /// `start` to `end` names: from the first index that belongs to the range
    /// up to, and without, the first index behind it. `list_length` is the
    /// length of the list; it is read only where `end` is unbounded. `None`
    /// where the offset, the end or the length is no `usize`.
    pub fn list_get_range(start: RangeBound, end: RangeBound, list_length: usize) -> (stretch:
        Option<(usize, usize)>)
        ensures
            stretch is Some <==> range_first(start) <= range_behind(end, list_length)
                <= usize::MAX,
            stretch matches Some((offset, len)) ==> offset == range_first(start) && len
                == range_behind(end, list_length) - range_first(start),
    {
        let first: usize = match start {
            RangeBound::Included(x) => x,
            RangeBound::Excluded(x) => {
                if x == usize::MAX {
                    return None;
                }
                x + 1
            },
            RangeBound::Unbounded => 0,
        };
        let behind: usize = match end {
            RangeBound::Included(x) => {
                if x == usize::MAX {
                    return None;
                }
                x + 1
            },
            RangeBound::Excluded(x) => x,
            RangeBound::Unbounded => list_length,
        };
        if behind < first {
            return None;
        }
        Some((first, behind - first))
    }
}

/// One end of a range of indices.
#[derive(Clone, Copy, Debug, PartialEq, Eq, Structural)]
pub enum RangeBound {
    /// The index itself belongs to the range.
    Included(usize),
    /// The index itself does not belong to the range.
    Excluded(usize),
    /// The range has no end on this side.
    Unbounded,
}

/// The first index that belongs to a range that starts at `start`.
pub open spec fn range_first(start: RangeBound) -> int {
    match start {
        RangeBound::Included(x) => x as int,
        RangeBound::Excluded(x) => x + 1,
        RangeBound::Unbounded => 0,
    }
}

/// The first index behind a range that ends at `end`, in a list of
/// `list_length` elements.
pub open spec fn range_behind(end: RangeBound, list_length: usize) -> int {
    match end {
        RangeBound::Included(x) => x + 1,
        RangeBound::Excluded(x) => x as int,
        RangeBound::Unbounded => list_length as int,
    }
}

/// A handle that stands for a failure, with the kind of the failure. The
/// kind is fixed when the handle is first looked at.
pub struct Error {
    handle: UnverifiedDartHandle,
    kind: ErrorKind,
}

impl Error {
    /// The handle that stands for the failure.
    pub closed spec fn spec_safe_handle(&self) -> UnverifiedDartHandle {
        self.handle
    }

    /// The kind of the failure.
    pub closed spec fn spec_kind(&self) -> ErrorKind {
        self.kind
    }

    /// The error that `handle` stands for, of the kind `kind`.
    pub fn of(handle: UnverifiedDartHandle, kind: ErrorKind) -> (error: Self)
        ensures
            error.spec_safe_handle() == handle,
            error.spec_kind() == kind,
    {
        Self { handle, kind }
    }

    /// The error behind `handle`, which the host made from a message that
    /// native code gave it as that of an API error. The kind is known without
    /// asking.
    pub fn new_api(handle: UnverifiedDartHandle) -> (error: Self)
        ensures
            error.spec_safe_handle() == handle,
            error.spec_kind() == ErrorKind::Api,
    {
        Self { handle, kind: ErrorKind::Api }
    }

    /// The error behind `handle`, which the host made from a message that
    /// native code gave it as that of a compilation error.
    pub fn new_compilation(handle: UnverifiedDartHandle) -> (error: Self)
        ensures
            error.spec_safe_handle() == handle,
            error.spec_kind() == ErrorKind::Compilation,
    {
        Self { handle, kind: ErrorKind::Compilation }
    }

    /// The error behind `handle`, which the host made from an exception that
    /// native code gave it as unhandled.
    pub fn new_unhandled_exception(handle: UnverifiedDartHandle) -> (error: Self)
        ensures
            error.spec_safe_handle() == handle,
            error.spec_kind() == ErrorKind::UnhandledException,
    {
        Self { handle, kind: ErrorKind::UnhandledException }
    }

    /// The address of the handle; it is not null.
    pub fn handle(&self) -> (handle: usize)
        ensures
            handle == self.spec_safe_handle()@,
            handle != 0,
    {
        self.handle.handle()
    }

    /// The handle that stands for the failure.
    #[verifier::when_used_as_spec(spec_safe_handle)]
    pub fn safe_handle(&self) -> (handle: UnverifiedDartHandle)
        ensures
            handle == self.spec_safe_handle(),
    {
        self.handle
    }

    /// The kind of the failure.
    #[verifier::when_used_as_spec(spec_kind)]
    pub fn kind(&self) -> (kind: ErrorKind)
        ensures
            kind == self.spec_kind(),
    {
        self.kind
    }

    /// The exception behind the failure: `exception`, which is what the host
    /// hands out as the exception of this handle, if the failure is an
    /// unhandled exception, and nothing for any other kind.
    pub fn get_exception(&self, exception: UnverifiedDartHandle) -> (found: Option<
        UnverifiedDartHandle,
    >)
        ensures
            found == (if self.kind() == ErrorKind::UnhandledException {
                Some(exception)
            } else {
                None
            }),
    {
        if let ErrorKind::UnhandledException = self.kind {
            Some(exception)
        } else {
            None
        }
    }

    /// The stack trace behind the failure: `stack_trace`, which is what the
    /// host hands out as the stack trace of this handle, if the failure is an
    /// unhandled exception, and nothing for any other kind.
    pub fn get_stack_trace(&self, stack_trace: UnverifiedDartHandle) -> (found: Option<
        UnverifiedDartHandle,
    >)
        ensures
            found == (if self.kind() == ErrorKind::UnhandledException {
                Some(stack_trace)
            } else {
                None
            }),
    {
        if let ErrorKind::UnhandledException = self.kind {
            Some(stack_trace)
        } else {
            None
        }
    }

    /// Tells a handle that was looked at apart: the error that it stands for,
    /// or the handle itself where it stands for none.
    pub fn from_handle(checked: Result<UnverifiedDartHandle, Error>) -> (told: Result<
        Error,
        UnverifiedDartHandle,
    >)
        ensures
            checked matches Ok(handle) ==> told == Err::<Error, UnverifiedDartHandle>(handle),
            checked matches Err(error) ==> told == Ok::<Error, UnverifiedDartHandle>(error),
    {
        match checked {
            Ok(x) => Err(x),
            Err(y) => Ok(y),
        }
    }
}

/// The handle behind a handle that was looked at: the handle itself, or the
/// one that stands for the failure.
pub fn result_safe_handle(checked: &Result<UnverifiedDartHandle, Error>) -> (handle:
    UnverifiedDartHandle)
    ensures
        checked matches Ok(value) ==> handle == value,
        checked matches Err(error) ==> handle == error.safe_handle(),
{
    match checked {
        Ok(x) => *x,
        Err(e) => e.safe_handle(),
    }
}

/// The id that names no channel endpoint.
pub open spec fn spec_illegal_port() -> i64 {
    0
}

/// The id that the host keeps for "no port", `dart_sys::ILLEGAL_PORT`. The
/// binding defines it as the constant zero.
#[verifier::external_body]
fn illegal_port() -> (port: i64)
    ensures
        port == spec_illegal_port(),
{
    dart_sys::ILLEGAL_PORT
}

/// A channel endpoint of the host, by its id. The id is never the one that
/// names no endpoint.
pub struct Port {
    port: i64,
}

impl View for Port {
    type V = i64;

    closed spec fn view(&self) -> i64 {
        self.port
    }
}

impl Port {
    #[verifier::type_invariant]
    spec fn legal(self) -> bool {
        self.port != spec_illegal_port()
    }

    /// The endpoint with the id `port`, and none for the id that names no
    /// endpoint.
    pub fn from_port(port: i64) -> (endpoint: Option<Self>)
        ensures
            port == spec_illegal_port() <==> endpoint is None,
            endpoint matches Some(p) ==> p@ == port,
    {
        if port == illegal_port() {
            None
        } else {
            Some(Self { port })
        }
    }

    /// The id of the endpoint.
    pub fn port(&self) -> (port: i64)
        ensures
            port == self@,
            port != spec_illegal_port(),
    {
        proof {
            use_type_invariant(self);
        }
        self.port
    }

    /// What the host is asked to deliver when `obj` is posted to the
    /// endpoint: the id of the endpoint, and the record by which the value is
    /// given up to the host for good. Whether the host took the message is
    /// its answer to that request.
    pub fn post_cobject(&self, obj: CObject) -> (message: (i64, HostCObject))
        ensures
            message.0 == self@,
            message.1@ == obj@.export(Owner::Host),
    {
        (self.port(), obj.into_leak())
    }
}

/// What the host is told when a native port is opened: that it may run the
/// handler of the port on several of its threads at once. A handler has to
/// be safe under that.
pub const HANDLE_CONCURRENTLY: bool = true;

/// A channel endpoint behind which a native handler stands.
pub struct NativePort {
    port: Port,
}

impl View for NativePort {
    type V = i64;

    closed spec fn view(&self) -> i64 {
        self.port@
    }
}

impl NativePort {
    /// The endpoint that the host opened for a native handler. `port` is the
    /// id that the host gave when the handler was registered; the id that
    /// names no endpoint says that it refused, and gives none.
    pub fn new_native(port: i64) -> (endpoint: Option<Self>)
        ensures
            port == spec_illegal_port() <==> endpoint is None,
            endpoint matches Some(p) ==> p@ == port,
    {
        match Port::from_port(port) {
            Some(port) => Some(Self { port }),
            None => None,
        }
    }

    /// The id of the endpoint.
    pub fn port(&self) -> (port: i64)
        ensures
            port == self@,
            port != spec_illegal_port(),
    {
        self.port.port()
    }
}

} // verus!
