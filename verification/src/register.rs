//! The table through which the host finds native entry points: from the name
//! of a function to its address when the host resolves a call, and from the
//! address back to the name when it prints a stack trace.

use crate::c_string::nul_free;
use crate::c_string::slice_to_vec;
use crate::dart_handle::{Error, UnverifiedDartHandle};
use std::collections::HashMap;
use vstd::prelude::*;
use vstd::string::StringSliceAdditionalSpecFns;

verus! {

/// A native entry point, by its address. The address is never zero: zero
/// stands for "no function" where the host expects an address.
#[derive(Clone, Copy, Debug)]
pub struct NativeFunction {
    address: usize,
}

impl View for NativeFunction {
    type V = usize;

    closed spec fn view(&self) -> usize {
        self.address
    }
}

impl NativeFunction {
    #[verifier::type_invariant]
    spec fn not_null(self) -> bool {
        self.address != 0
    }

    /// The entry point at `address`, and none at the null address.
    pub fn new(address: usize) -> (function: Option<Self>)
        ensures
            address == 0 <==> function is None,
            function matches Some(f) ==> f@ == address,
    {
        if address == 0 {
            None
        } else {
            Some(Self { address })
        }
    }

    /// The address of the entry point; it is not zero.
    pub fn address(&self) -> (address: usize)
        ensures
            address == self@,
            address != 0,
    {
        proof {
            use_type_invariant(self);
        }
        self.address
    }
}

/// What is found when a function is looked up, by its address.
pub open spec fn address_of(found: Option<NativeFunction>) -> Option<usize> {
    match found {
        Some(function) => Some(function@),
        None => None,
    }
}

/// What a register holds: for each name the address of the function that was
/// last registered under it, and for the address of each function the name
/// that it was last registered under.
pub struct RegisterView {
    pub functions: Map<Seq<u8>, usize>,
    pub function_names: Map<usize, Seq<u8>>,
}

impl RegisterView {
    /// The register that holds nothing.
    pub open spec fn empty() -> RegisterView {
        RegisterView { functions: Map::empty(), function_names: Map::empty() }
    }

    /// The register after `function` has been registered under `name`: the
    /// pair is entered in both directions, over whatever stood there.
    pub open spec fn add(self, name: Seq<u8>, function: usize) -> RegisterView {
        RegisterView {
            functions: self.functions.insert(name, function),
            function_names: self.function_names.insert(function, name),
        }
    }

    /// The function that the host gets when it resolves `name`.
    pub open spec fn resolve_by_name(self, name: Seq<u8>) -> Option<usize> {
        if self.functions.dom().contains(name) {
            Some(self.functions[name])
        } else {
            None
        }
    }

    /// The name that the host gets when it asks whose address `function` is.
    pub open spec fn resolve_name_for_pointer(self, function: Option<usize>) -> Option<Seq<u8>> {
        match function {
            Some(f) => if self.function_names.dom().contains(f) {
                Some(self.function_names[f])
            } else {
                None
            },
            None => None,
        }
    }
}

/// One registration: a name and the address of the function registered under
/// it.
pub type Registration = (Seq<u8>, usize);

/// The register that the registrations of `entries` leave, made in their
/// order on a register that held nothing.
pub open spec fn registered(entries: Seq<Registration>) -> RegisterView
    decreases entries.len(),
{
    if entries.len() == 0 {
        RegisterView::empty()
    } else {
        registered(entries.drop_last()).add(entries.last().0, entries.last().1)
    }
}

/// Whether the registration at `i` is the last one of `entries` under its
/// name.
pub open spec fn last_under_name(entries: Seq<Registration>, i: int) -> bool {
    &&& 0 <= i < entries.len()
    &&& forall|k: int| i < k < entries.len() ==> (#[trigger] entries[k]).0 != entries[i].0
}

/// Whether the registration at `i` is the last one of `entries` of its
/// function.
pub open spec fn last_of_function(entries: Seq<Registration>, i: int) -> bool {
    &&& 0 <= i < entries.len()
    &&& forall|k: int| i < k < entries.len() ==> (#[trigger] entries[k]).1 != entries[i].1
}

/// A name resolves to the function of its last registration, and to nothing
/// if it was never registered.
pub proof fn lemma_resolve_by_name(entries: Seq<Registration>, name: Seq<u8>)
    ensures
        registered(entries).resolve_by_name(name) is Some <==> exists|i: int|
            0 <= i < entries.len() && (#[trigger] entries[i]).0 == name,
        forall|i: int|
            last_under_name(entries, i) && entries[i].0 == name ==> registered(
                entries,
            ).resolve_by_name(name) == Some(entries[i].1),
    decreases entries.len(),
{
    if entries.len() > 0 {
        let before = entries.drop_last();
        lemma_resolve_by_name(before, name);
        if entries.last().0 != name {
            // A registration under `name` is one of `before`, and the other way
            // round.
            if exists|i: int| 0 <= i < entries.len() && (#[trigger] entries[i]).0 == name {
                let i = choose|i: int| 0 <= i < entries.len() && (#[trigger] entries[i]).0 == name;
                assert(before[i].0 == name);
            }
            if exists|i: int| 0 <= i < before.len() && (#[trigger] before[i]).0 == name {
                let i = choose|i: int| 0 <= i < before.len() && (#[trigger] before[i]).0 == name;
                assert(entries[i].0 == name);
            }
        }
        assert forall|i: int| last_under_name(entries, i) && entries[i].0 == name implies registered(
            entries,
        ).resolve_by_name(name) == Some(entries[i].1) by {
            if i < entries.len() - 1 {
                assert(last_under_name(before, i));
            }
        }
    }
}

/// A function resolves to the name of its last registration, and to nothing
/// if it was never registered.
pub proof fn lemma_resolve_name_for_pointer(entries: Seq<Registration>, function: usize)
    ensures
        registered(entries).resolve_name_for_pointer(Some(function)) is Some <==> exists|i: int|
            0 <= i < entries.len() && (#[trigger] entries[i]).1 == function,
        forall|i: int|
            last_of_function(entries, i) && entries[i].1 == function ==> registered(
                entries,
            ).resolve_name_for_pointer(Some(function)) == Some(entries[i].0),
    decreases entries.len(),
{
    if entries.len() > 0 {
        let before = entries.drop_last();
        lemma_resolve_name_for_pointer(before, function);
        if entries.last().1 != function {
            // A registration of `function` is one of `before`, and the other
            // way round.
            if exists|i: int| 0 <= i < entries.len() && (#[trigger] entries[i]).1 == function {
                let i = choose|i: int|
                    0 <= i < entries.len() && (#[trigger] entries[i]).1 == function;
                assert(before[i].1 == function);
            }
            if exists|i: int| 0 <= i < before.len() && (#[trigger] before[i]).1 == function {
                let i = choose|i: int|
                    0 <= i < before.len() && (#[trigger] before[i]).1 == function;
                assert(entries[i].1 == function);
            }
        }
        assert forall|i: int|
            last_of_function(entries, i) && entries[i].1 == function implies registered(
            entries,
        ).resolve_name_for_pointer(Some(function)) == Some(entries[i].0) by {
            if i < entries.len() - 1 {
                assert(last_of_function(before, i));
            }
        }
    }
}

/// The index of the last registration of `entries[i]`'s function.
proof fn lemma_last_of_function(entries: Seq<Registration>, i: int) -> (j: int)
    requires
        0 <= i < entries.len(),
    ensures
        i <= j,
        last_of_function(entries, j),
        entries[j].1 == entries[i].1,
    decreases entries.len() - i,
{
    if exists|k: int| i < k < entries.len() && (#[trigger] entries[k]).1 == entries[i].1 {
        let k = choose|k: int| i < k < entries.len() && (#[trigger] entries[k]).1 == entries[i].1;
        lemma_last_of_function(entries, k)
    } else {
        i
    }
}

/// Registry round trip, exactly: take the last registration of a name. The
/// name resolves to the function of that registration; and that function
/// resolves back to the name if, and only if, the function was not
/// registered again after it.
pub proof fn lemma_round_trip(entries: Seq<Registration>, i: int)
    requires
        last_under_name(entries, i),
    ensures
        registered(entries).resolve_by_name(entries[i].0) == Some(entries[i].1),
        registered(entries).resolve_name_for_pointer(
            registered(entries).resolve_by_name(entries[i].0),
        ) == Some(entries[i].0) <==> last_of_function(entries, i),
{
    lemma_resolve_by_name(entries, entries[i].0);
    lemma_resolve_name_for_pointer(entries, entries[i].1);
    // The last registration of the function is this one, or one under
    // another name.
    let j = lemma_last_of_function(entries, i);
    assert(j > i ==> entries[j].0 != entries[i].0);
}

/// Whether no function of `entries` is registered under two names.
pub open spec fn one_name_each(entries: Seq<Registration>) -> bool {
    forall|i: int, j: int|
        0 <= i < entries.len() && 0 <= j < entries.len() && (#[trigger] entries[i]).1 == (
        #[trigger] entries[j]).1 ==> entries[i].0 == entries[j].0
}

/// Registry bijection: where no function is registered under two names,
/// every registered name resolves to a function that resolves back to the
/// name, byte for byte.
pub proof fn lemma_registry_bijection(entries: Seq<Registration>, name: Seq<u8>)
    requires
        one_name_each(entries),
        exists|i: int| 0 <= i < entries.len() && (#[trigger] entries[i]).0 == name,
    ensures
        registered(entries).resolve_by_name(name) is Some,
        registered(entries).resolve_name_for_pointer(registered(entries).resolve_by_name(name))
            == Some(name),
{
    lemma_resolve_by_name(entries, name);
    let function = registered(entries).resolve_by_name(name)->Some_0;
    lemma_resolve_name_for_pointer(entries, function);
    let i = choose|i: int| 0 <= i < entries.len() && (#[trigger] entries[i]).0 == name;
    let i = lemma_last_under_name(entries, i);
    let j = lemma_last_of_function(entries, i);
    assert(entries[j].0 == name);
}

/// Whether `bytes` is a C string as it lies in memory: bytes without a zero,
/// and then one zero.
pub open spec fn is_c_string(bytes: Seq<u8>) -> bool {
    bytes.len() > 0 && bytes.last() == 0 && nul_free(bytes.drop_last())
}

/// The name that the host is given for an address that no function was
/// registered with, as a C string in memory.
pub open spec fn spec_unknown_function_name() -> Seq<u8> {
    "<Unknown Native Function>\0".spec_bytes()
}

/// Puts `bytes` where they stay for as long as the process runs, with
/// `Vec::leak`: the slice that comes back holds the bytes of the vector, and
/// nothing frees it.
#[verifier::external_body]
fn leak(bytes: Vec<u8>) -> (leaked: &'static [u8])
    ensures
        leaked@ == bytes@,
{
    Vec::leak(bytes)
}

/// The two-way table of native functions and their names. It is filled once,
/// when the module is initialised, and only read after that.
pub struct FunctionRegister {
    /// From names to functions: the registrations in their order, of which
    /// the last one under a name counts.
    entries: Vec<(&'static [u8], NativeFunction)>,
    /// From the addresses of functions to names.
    function_names: HashMap<usize, &'static [u8]>,
}

impl View for FunctionRegister {
    type V = RegisterView;

    open spec fn view(&self) -> RegisterView {
        registered(self.registrations())
    }
}

impl Default for FunctionRegister {
    fn default() -> (register: Self)
        ensures
            register.registrations() == Seq::<Registration>::empty(),
    {
        Self { entries: Vec::new(), function_names: HashMap::new() }
    }
}

impl FunctionRegister {
    #[verifier::type_invariant]
    spec fn well_formed(self) -> bool {
        &&& forall|i: int|
            0 <= i < self.entries@.len() ==> is_c_string((#[trigger] self.entries@[i]).0@)
        &&& self.function_names@.dom() == registered(self.registrations()).function_names.dom()
        &&& forall|f: usize| #[trigger]
            self.function_names@.dom().contains(f) ==> is_c_string(self.function_names@[f]@)
                && self.function_names@[f]@.drop_last() == registered(
                self.registrations(),
            ).function_names[f]
    }

    /// The registrations that were made, in their order.
    pub closed spec fn registrations(&self) -> Seq<Registration> {
        Seq::new(
            self.entries@.len(),
            |i: int| (self.entries@[i].0@.drop_last(), self.entries@[i].1@),
        )
    }

    /// Registers `function` under `name`. The name is copied to memory that is
    /// never freed, so that an address of it that the host holds stays good;
    /// the pair is entered in both directions.
    pub fn add_function(&mut self, function: NativeFunction, name: &str)
        requires
            nul_free(name.spec_bytes()),
        ensures
            final(self).registrations() == old(self).registrations().push(
                (name.spec_bytes(), function@),
            ),
            final(self)@ == old(self)@.add(name.spec_bytes(), function@),
    {
        proof {
            use_type_invariant(&*self);
        }
        let mut bytes = slice_to_vec(name.as_bytes());
        bytes.push(0u8);
        assert(bytes@.drop_last() == name.spec_bytes());
        let name = leak(bytes);
        let mut register = FunctionRegister::default();
        std::mem::swap(self, &mut register);
        let FunctionRegister { entries, function_names } = register;
        let mut entries = entries;
        let mut function_names = function_names;
        entries.push((name, function));
        function_names.insert(function.address(), name);
        proof {
            let before = old(self).registrations();
            let after = Seq::new(
                entries@.len(),
                |i: int| (entries@[i].0@.drop_last(), entries@[i].1@),
            );
            assert(after.drop_last() =~= before);
            assert(after.last() == (name@.drop_last(), function@));
            assert(function_names@.dom() =~= registered(after).function_names.dom());
        }
        *self = FunctionRegister { entries, function_names };
    }

    /// The function that was last registered under `name`, if any was. `name`
    /// holds the bytes of the name that the host asks for, without a
    /// terminator.
    pub fn get_function(&self, name: &[u8]) -> (function: Option<NativeFunction>)
        ensures
            address_of(function) == self@.resolve_by_name(name@),
    {
        proof {
            use_type_invariant(self);
        }
        let ghost log = self.registrations();
        let mut i: usize = self.entries.len();
        assert(log.take(i as int) =~= log);
        while i > 0
            invariant
                i <= self.entries@.len(),
                log == self.registrations(),
                forall|i: int|
                    0 <= i < self.entries@.len() ==> is_c_string(
                        (#[trigger] self.entries@[i]).0@,
                    ),
                registered(log).resolve_by_name(name@) == registered(
                    log.take(i as int),
                ).resolve_by_name(name@),
            decreases i,
        {
            i -= 1;
            assert(log.take(i + 1).drop_last() =~= log.take(i as int));
            if terminated_equals(self.entries[i].0, name) {
                return Some(self.entries[i].1);
            }
        }
        None
    }

    /// The name that `function` was last registered under, if it was
    /// registered: the bytes of the name followed by the terminating zero, in
    /// memory that is never freed. There is none for "no function".
    pub fn get_name_from_function(&self, function: Option<NativeFunction>) -> (name: Option<
        &'static [u8],
    >)
        ensures
            name is Some <==> self@.resolve_name_for_pointer(address_of(function)) is Some,
            name matches Some(bytes) ==> bytes@ == self@.resolve_name_for_pointer(
                address_of(function),
            )->Some_0.push(0u8),
    {
        proof {
            use_type_invariant(self);
        }
        let wanted: usize = match function {
            Some(f) => f.address(),
            None => {
                return None;
            },
        };
        match self.function_names.get(&wanted) {
            Some(name) => {
                let bytes: &'static [u8] = *name;
                assert(bytes@ =~= bytes@.drop_last().push(0u8));
                Some(bytes)
            },
            None => None,
        }
    }
}

/// What the resolver does with a request of the host for a function.
pub enum ResolveStep {
    /// It answers "no function".
    NoFunction,
    /// It tells the host to set up a scope for the call, reads the text of
    /// `name`, and looks the text up in the register.
    LookUp { name: UnverifiedDartHandle, auto_scope_setup: bool },
}

/// The first step of resolving a name. `name` is the handle that the host
/// asks with, as it was looked at, and `is_string` the host's answer to
/// whether it is a string. A handle that is an error or no string gets "no
/// function"; for a string the host is told to set up a scope.
pub fn resolve_name(name: Result<UnverifiedDartHandle, Error>, is_string: bool) -> (step:
    ResolveStep)
    ensures
        step == (match name {
            Ok(handle) => if is_string {
                ResolveStep::LookUp { name: handle, auto_scope_setup: true }
            } else {
                ResolveStep::NoFunction
            },
            Err(_) => ResolveStep::NoFunction,
        }),
{
    let name = match name {
        Ok(name) => name,
        Err(_) => {
            return ResolveStep::NoFunction;
        },
    };
    if !is_string {
        return ResolveStep::NoFunction;
    }
    ResolveStep::LookUp { name, auto_scope_setup: true }
}

/// The address that the host is handed for what a lookup found: that of the
/// function, and zero, the null address, for "no function". Nothing else gets
/// the null address.
pub fn native_function_address(found: Option<NativeFunction>) -> (address: usize)
    ensures
        found is None <==> address == 0,
        found matches Some(function) ==> address == function@,
{
    match found {
        Some(function) => function.address(),
        None => 0,
    }
}

/// The name that the host is handed for the address `function`, as a C
/// string in memory that is never freed: the name that the function was last
/// registered under, or a fixed one that says that it is unknown.
pub fn resolve_function(register: &FunctionRegister, function: Option<NativeFunction>) -> (name:
    &'static [u8])
    ensures
        name@ == (match register@.resolve_name_for_pointer(address_of(function)) {
            Some(known) => known.push(0u8),
            None => spec_unknown_function_name(),
        }),
{
    let name = register.get_name_from_function(function);
    if let Some(x) = name {
        x
    } else {
        "<Unknown Native Function>\0".as_bytes()
    }
}

/// Whether `stored`, a C string in memory, holds the bytes of `name` before
/// its terminator.
fn terminated_equals(stored: &[u8], name: &[u8]) -> (equal: bool)
    requires
        stored@.len() > 0,
    ensures
        equal == (stored@.drop_last() == name@),
{
    if stored.len() - 1 != name.len() {
        return false;
    }
    let mut k: usize = 0;
    while k < name.len()
        invariant
            k <= name.len(),
            stored@.len() == name@.len() + 1,
            forall|j: int| 0 <= j < k ==> stored@[j] == name@[j],
        decreases name.len() - k,
    {
        if stored[k] != name[k] {
            return false;
        }
        k += 1;
    }
    assert(stored@.drop_last() =~= name@);
    true
}

/// The index of the last registration under `entries[i]`'s name.
proof fn lemma_last_under_name(entries: Seq<Registration>, i: int) -> (j: int)
    requires
        0 <= i < entries.len(),
    ensures
        i <= j,
        last_under_name(entries, j),
        entries[j].0 == entries[i].0,
    decreases entries.len() - i,
{
    if exists|k: int| i < k < entries.len() && (#[trigger] entries[k]).0 == entries[i].0 {
        let k = choose|k: int| i < k < entries.len() && (#[trigger] entries[k]).0 == entries[i].0;
        lemma_last_under_name(entries, k)
    } else {
        i
    }
}

} // verus!
