//! The error taxonomy: named failures of each operation family, and the
//! transport failures that carry everything else.

pub mod access_point;
pub mod agent;
pub mod network;
pub mod station;

use vstd::prelude::*;

verus! {

#[verifier::external_type_specification]
#[verifier::external_body]
pub struct ExZbusError(zbus::Error);

/// A closed set of named failures that an operation family can report, each
/// carried on the wire as a symbolic fault name.
pub trait OperationFault: Sized {
    /// The member that a fault name stands for, if any.
    spec fn spec_from_fault_name(name: Seq<char>) -> Option<Self>;

    /// The fault name of a member.
    spec fn spec_fault_name(&self) -> Seq<char>;

    fn from_fault_name(name: &str) -> (r: Option<Self>)
        ensures
            r == Self::spec_from_fault_name(name@),
    ;

    fn fault_name(&self) -> (r: &'static str)
        ensures
            r@ == self.spec_fault_name(),
    ;

    /// Each member's fault name stands for that member, and no other name
    /// does.
    proof fn lemma_fault_name_round_trip(&self)
        ensures
            Self::spec_from_fault_name(self.spec_fault_name()) == Some(*self),
            forall|n: Seq<char>| #[trigger] Self::spec_from_fault_name(n) == Some(*self) ==> n == self.spec_fault_name(),
    ;
}

/// A failed operation: one of the operation family's named failures, or a
/// transport failure.
#[derive(Debug)]
pub enum IWDError<T> {
    OperationError(T),
    ZbusError(zbus::Error),
}

pub type Result<T, E> = std::result::Result<T, IWDError<E>>;

/// The symbolic fault name that a transport failure carries, if it is a
/// fault reply of the remote side.
pub uninterp spec fn fault_name_of(e: zbus::Error) -> Option<Seq<char>>;

/// Relies on zbus's `Error::MethodError`, the variant that carries a fault
/// reply of the remote side together with its symbolic name; the name is
/// handed out as a string. It depends on the error alone.
#[verifier::external_body]
fn method_error_name(error: &zbus::Error) -> (r: Option<String>)
    ensures
        match r {
            Some(s) => fault_name_of(*error) == Some(s@),
            None => fault_name_of(*error) is None,
        },
{
    match error {
        zbus::Error::MethodError(name, _, _) => Some(name.as_str().to_string()),
        _ => None,
    }
}

impl<T: OperationFault> IWDError<T> {
    /// The classification of a transport failure whose fault name, if it is
    /// a fault reply at all, is `fault_name`.
    pub open spec fn spec_from_fault(fault_name: Option<Seq<char>>, error: zbus::Error) -> IWDError<T> {
        match fault_name {
            Some(name) => match T::spec_from_fault_name(name) {
                Some(kind) => IWDError::OperationError(kind),
                None => IWDError::ZbusError(error),
            },
            None => IWDError::ZbusError(error),
        }
    }

    /// Maps a failure to the operation family's member that its fault name
    /// stands for; an unrecognised name, or a failure that is no fault
    /// reply, stays a transport failure.
    pub fn from_fault(fault_name: Option<&str>, error: zbus::Error) -> (r: IWDError<T>)
        ensures
            r == Self::spec_from_fault(
                match fault_name {
                    Some(n) => Some(n@),
                    None => None,
                },
                error,
            ),
    {
        match fault_name {
            Some(name) => match T::from_fault_name(name) {
                Some(kind) => IWDError::OperationError(kind),
                None => IWDError::ZbusError(error),
            },
            None => IWDError::ZbusError(error),
        }
    }

    /// Classifies a transport failure by the fault name that it carries.
    pub fn from_zbus(error: zbus::Error) -> (r: IWDError<T>)
        ensures
            r == Self::spec_from_fault(fault_name_of(error), error),
    {
        let name = method_error_name(&error);
        match name {
            Some(n) => Self::from_fault(Some(n.as_str()), error),
            None => Self::from_fault(None, error),
        }
    }
}

/// A fault reply that carries a member's fault name is classified as that
/// member of the operation family, never as a transport failure.
pub proof fn lemma_fault_classifies_as_member<T: OperationFault>(kind: T, error: zbus::Error)
    ensures
        IWDError::<T>::spec_from_fault(Some(kind.spec_fault_name()), error) == IWDError::<T>::OperationError(kind),
{
    kind.lemma_fault_name_round_trip();
}

} // verus!
