//! The arguments of a native call, once the host has filled them in: how the
//! pairs of descriptor and value become the list of arguments by position.

use crate::dart_handle::{Error, UnverifiedDartHandle};
use vstd::pervasive::unreached;
use vstd::prelude::*;

verus! {

/// One argument of a native call.
pub enum NativeArgumentValue {
    /// A position that nothing was put in.
    Null,
    Bool(bool),
    Int32(i32),
    UInt32(u32),
    Int64(i64),
    UInt64(u64),
    /// A double, by the 64 bits of its encoding.
    Double(u64),
    /// A string of the host, by its handle.
    String(UnverifiedDartHandle),
    /// Any other object of the host, by its handle.
    Instance(UnverifiedDartHandle),
}

/// What the host filled in for one argument, by the type that the
/// descriptor names.
pub enum NativeArgumentSlot {
    Bool(bool),
    Int32(i32),
    Uint32(u32),
    Int64(i64),
    Uint64(u64),
    /// A double, by the 64 bits of its encoding.
    Double(u64),
    /// The handle of a string as it was looked at, and the host's answer to
    /// whether it is a string.
    String { handle: Result<UnverifiedDartHandle, Error>, is_string: bool },
    /// The handle of an object as it was looked at.
    Instance(Result<UnverifiedDartHandle, Error>),
    /// The native fields of an object.
    NativeFields,
}

/// One pair that the host filled in: the position of the argument and what
/// was filled in for it.
pub struct NativeArgument {
    pub index: u8,
    pub slot: NativeArgumentSlot,
}

/// Why a pair of a call, or all of them together, give no argument.
pub enum ArgumentFault {
    /// A handle among them stands for an error of the host.
    Host(Error),
    /// One of them holds native fields, which have no argument value.
    NativeFields,
    /// One of them is described as a string and is none.
    NotAString,
    /// One of them names a position that the call does not have.
    OutOfRange,
    /// No pair names this position.
    Unfilled(usize),
}

/// The argument that `slot` stands for, or why it stands for none.
pub open spec fn spec_argument_of(slot: NativeArgumentSlot) -> Result<
    NativeArgumentValue,
    ArgumentFault,
> {
    match slot {
        NativeArgumentSlot::Bool(x) => Ok(NativeArgumentValue::Bool(x)),
        NativeArgumentSlot::Int32(x) => Ok(NativeArgumentValue::Int32(x)),
        NativeArgumentSlot::Uint32(x) => Ok(NativeArgumentValue::UInt32(x)),
        NativeArgumentSlot::Int64(x) => Ok(NativeArgumentValue::Int64(x)),
        NativeArgumentSlot::Uint64(x) => Ok(NativeArgumentValue::UInt64(x)),
        NativeArgumentSlot::Double(x) => Ok(NativeArgumentValue::Double(x)),
        NativeArgumentSlot::String { handle, is_string } => match handle {
            Err(error) => Err(ArgumentFault::Host(error)),
            Ok(string) => if is_string {
                Ok(NativeArgumentValue::String(string))
            } else {
                Err(ArgumentFault::NotAString)
            },
        },
        NativeArgumentSlot::Instance(handle) => match handle {
            Err(error) => Err(ArgumentFault::Host(error)),
            Ok(instance) => Ok(NativeArgumentValue::Instance(instance)),
        },
        NativeArgumentSlot::NativeFields => Err(ArgumentFault::NativeFields),
    }
}

/// The positions of a call after the first `count` pairs of `pairs` have
/// been put in their places, one after the other; or the first fault that
/// putting them there met.
pub open spec fn spec_placed(pairs: Seq<NativeArgument>, count: nat) -> Result<
    Seq<NativeArgumentValue>,
    ArgumentFault,
>
    decreases count,
{
    if count == 0 {
        Ok(Seq::new(pairs.len(), |i: int| NativeArgumentValue::Null))
    } else {
        match spec_placed(pairs, (count - 1) as nat) {
            Err(fault) => Err(fault),
            Ok(placed) => match spec_argument_of(pairs[count - 1].slot) {
                Err(fault) => Err(fault),
                Ok(value) => if pairs[count - 1].index < placed.len() {
                    Ok(placed.update(pairs[count - 1].index as int, value))
                } else {
                    Err(ArgumentFault::OutOfRange)
                },
            },
        }
    }
}

/// Whether `position` is the first position of `placed` that nothing was put
/// in.
pub open spec fn first_unfilled(placed: Seq<NativeArgumentValue>, position: int) -> bool {
    &&& 0 <= position < placed.len()
    &&& placed[position] is Null
    &&& forall|i: int| 0 <= i < position ==> !(#[trigger] placed[i] is Null)
}

/// Whether something was put in every position of `placed`.
pub open spec fn all_filled(placed: Seq<NativeArgumentValue>) -> bool {
    forall|i: int| 0 <= i < placed.len() ==> !(#[trigger] placed[i] is Null)
}

/// Whether the pairs of a call cannot be taken as its arguments, and not
/// because of the host: before any handle that stands for an error, one of
/// them holds native fields, is described as a string and is none, or names a
/// position that the call does not have; or, with all of them taken, a
/// position is left that no pair named.
pub open spec fn unusable(pairs: Seq<NativeArgument>) -> bool {
    match spec_placed(pairs, pairs.len()) {
        Err(ArgumentFault::Host(_)) => false,
        Err(_) => true,
        Ok(placed) => !all_filled(placed),
    }
}

/// What looking at one slot tells, without taking it.
enum Look {
    Argument,
    HostError,
    NativeFields,
    NotAString,
}

/// Looks at `slot`.
fn look(slot: &NativeArgumentSlot) -> (seen: Look)
    ensures
        seen is Argument <==> (spec_argument_of(*slot) matches Ok(value) && !(value is Null)),
        seen is HostError <==> spec_argument_of(*slot) matches Err(ArgumentFault::Host(_)),
        seen is NativeFields <==> spec_argument_of(*slot) matches Err(ArgumentFault::NativeFields),
        seen is NotAString <==> spec_argument_of(*slot) matches Err(ArgumentFault::NotAString),
{
    match slot {
        NativeArgumentSlot::String { handle, is_string } => {
            if handle.is_err() {
                Look::HostError
            } else if *is_string {
                Look::Argument
            } else {
                Look::NotAString
            }
        },
        NativeArgumentSlot::Instance(handle) => {
            if handle.is_err() {
                Look::HostError
            } else {
                Look::Argument
            }
        },
        NativeArgumentSlot::NativeFields => Look::NativeFields,
        _ => Look::Argument,
    }
}

impl NativeArgumentValue {
    /// Why the pairs cannot be taken as the arguments of a call, if they
    /// cannot and the host is not the reason: the fault of the first pair
    /// that has one, as long as no handle before it stands for an error, or
    /// else the first position that no pair named.
    pub fn fault(pairs: &Vec<NativeArgument>) -> (fault: Option<ArgumentFault>)
        ensures
            fault is Some <==> unusable(pairs@),
            fault matches Some(found) ==> (spec_placed(pairs@, pairs@.len()) matches Err(met)
                ==> found == met),
            fault matches Some(found) ==> (spec_placed(pairs@, pairs@.len()) matches Ok(placed)
                ==> found matches ArgumentFault::Unfilled(position) && first_unfilled(
                placed,
                position as int,
            )),
    {
        let ghost all = pairs@;
        let count: usize = pairs.len();
        let mut filled: Vec<bool> = Vec::new();
        let mut n: usize = 0;
        while n < count
            invariant
                n <= count,
                filled@.len() == n,
                forall|i: int| 0 <= i < n ==> !(#[trigger] filled@[i]),
            decreases count - n,
        {
            filled.push(false);
            n += 1;
        }
        let mut k: usize = 0;
        while k < count
            invariant
                k <= count,
                all == pairs@,
                count == all.len(),
                filled@.len() == count,
                spec_placed(all, k as nat) is Ok,
                spec_placed(all, k as nat)->Ok_0.len() == count,
                forall|i: int|
                    0 <= i < count ==> (#[trigger] filled@[i]) == !(spec_placed(
                        all,
                        k as nat,
                    )->Ok_0[i] is Null),
            decreases count - k,
        {
            let idx: u8 = pairs[k].index;
            match look(&pairs[k].slot) {
                Look::Argument => {},
                Look::HostError => {
                    proof {
                        lemma_fault_stays(all, (k + 1) as nat, all.len());
                    }
                    return None;
                },
                Look::NativeFields => {
                    proof {
                        lemma_fault_stays(all, (k + 1) as nat, all.len());
                    }
                    return Some(ArgumentFault::NativeFields);
                },
                Look::NotAString => {
                    proof {
                        lemma_fault_stays(all, (k + 1) as nat, all.len());
                    }
                    return Some(ArgumentFault::NotAString);
                },
            }
            if idx as usize >= count {
                proof {
                    lemma_fault_stays(all, (k + 1) as nat, all.len());
                }
                return Some(ArgumentFault::OutOfRange);
            }
            filled.set(idx as usize, true);
            k += 1;
        }
        let mut position: usize = 0;
        while position < count
            invariant
                position <= count,
                all == pairs@,
                count == all.len(),
                filled@.len() == count,
                spec_placed(all, all.len()) is Ok,
                spec_placed(all, all.len())->Ok_0.len() == count,
                forall|i: int|
                    0 <= i < count ==> (#[trigger] filled@[i]) == !(spec_placed(
                        all,
                        all.len(),
                    )->Ok_0[i] is Null),
                forall|i: int| 0 <= i < position ==> filled@[i],
            decreases count - position,
        {
            if !filled[position] {
                proof {
                    let placed = spec_placed(all, all.len())->Ok_0;
                    assert(!filled@[position as int]);
                    assert forall|i: int| 0 <= i < position implies !(#[trigger] placed[i]
                        is Null) by {
                        assert(filled@[i]);
                    }
                }
                return Some(ArgumentFault::Unfilled(position));
            }
            position += 1;
        }
        proof {
            let placed = spec_placed(all, all.len())->Ok_0;
            assert forall|i: int| 0 <= i < placed.len() implies !(#[trigger] placed[i] is Null) by {
                assert(filled@[i]);
            }
        }
        None
    }

    /// The arguments of a call by position, from the pairs that the host
    /// filled in. The call has as many positions as there are pairs. The
    /// pairs are taken in their order, and a later pair for a position
    /// replaces an earlier one. A handle among them that stands for an error
    /// of the host ends it with that error, the first such handle in the
    /// order of the pairs.
    pub fn get_args(pairs: Vec<NativeArgument>) -> (arguments: Result<
        Vec<NativeArgumentValue>,
        Error,
    >)
        requires
            !unusable(pairs@),
        ensures
            spec_placed(pairs@, pairs@.len()) matches Err(ArgumentFault::Host(error))
                ==> arguments == Err::<Vec<NativeArgumentValue>, Error>(error),
            spec_placed(pairs@, pairs@.len()) matches Ok(placed) ==> (arguments matches Ok(values)
                && values@ == placed && all_filled(values@)),
    {
        let ghost all = pairs@;
        let count: usize = pairs.len();
        let mut result: Vec<NativeArgumentValue> = Vec::new();
        let mut n: usize = 0;
        while n < count
            invariant
                n <= count,
                result@.len() == n,
                forall|i: int| 0 <= i < n ==> (#[trigger] result@[i]) is Null,
            decreases count - n,
        {
            result.push(NativeArgumentValue::Null);
            n += 1;
        }
        assert(result@ =~= Seq::new(all.len(), |i: int| NativeArgumentValue::Null));
        for pair in it: pairs
            invariant
                it.seq() == all,
                count == all.len(),
                result@.len() == count,
                !unusable(all),
                spec_placed(all, it.index() as nat) == Ok::<
                    Seq<NativeArgumentValue>,
                    ArgumentFault,
                >(result@),
        {
            let idx: u8 = pair.index;
            proof {
                if spec_placed(all, (it.index() + 1) as nat) is Err {
                    lemma_fault_stays(all, (it.index() + 1) as nat, all.len());
                }
            }
            let next = match Self::argument_of(pair.slot) {
                Ok(next) => next,
                Err(ArgumentFault::Host(error)) => {
                    return Err(error);
                },
                Err(_) => unreached(),
            };
            if idx as usize >= count {
                unreached()
            }
            result[idx as usize] = next;
        }
        Ok(result)
    }

    /// The argument that `slot` stands for, or why it stands for none.
    pub fn argument_of(slot: NativeArgumentSlot) -> (argument: Result<
        NativeArgumentValue,
        ArgumentFault,
    >)
        ensures
            argument == spec_argument_of(slot),
    {
        match slot {
            NativeArgumentSlot::Bool(x) => Ok(NativeArgumentValue::Bool(x)),
            NativeArgumentSlot::Int32(x) => Ok(NativeArgumentValue::Int32(x)),
            NativeArgumentSlot::Uint32(x) => Ok(NativeArgumentValue::UInt32(x)),
            NativeArgumentSlot::Int64(x) => Ok(NativeArgumentValue::Int64(x)),
            NativeArgumentSlot::Uint64(x) => Ok(NativeArgumentValue::UInt64(x)),
            NativeArgumentSlot::Double(x) => Ok(NativeArgumentValue::Double(x)),
            NativeArgumentSlot::String { handle, is_string } => match handle {
                Err(error) => Err(ArgumentFault::Host(error)),
                Ok(string) => if is_string {
                    Ok(NativeArgumentValue::String(string))
                } else {
                    Err(ArgumentFault::NotAString)
                },
            },
            NativeArgumentSlot::Instance(handle) => match handle {
                Err(error) => Err(ArgumentFault::Host(error)),
                Ok(instance) => Ok(NativeArgumentValue::Instance(instance)),
            },
            NativeArgumentSlot::NativeFields => Err(ArgumentFault::NativeFields),
        }
    }
}

/// A fault that was met stays: the pairs behind it are not looked at.
proof fn lemma_fault_stays(pairs: Seq<NativeArgument>, met: nat, count: nat)
    requires
        met <= count,
        spec_placed(pairs, met) is Err,
    ensures
        spec_placed(pairs, count) == spec_placed(pairs, met),
    decreases count,
{
    if met < count {
        lemma_fault_stays(pairs, met, (count - 1) as nat);
    }
}

} // verus!
