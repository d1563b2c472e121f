//! The enumerated-value collaborators: the process-wide enum descriptor, the
//! contract a concrete enum type implements, and the wrapper type that
//! tolerates numbers the schema does not declare.

use core::marker::PhantomData;

use vstd::prelude::*;

use crate::model::EnumDescriptorModel;

verus! {

/// Process-wide metadata of one enum family: its identity and the integer
/// numbers the schema declares for it.  Descriptors are created once at
/// schema-load time, interned (one per family), and never mutated.
#[derive(Debug, PartialEq)]
pub struct EnumDescriptor {
    id: u64,
    values: Vec<i32>,
}

impl View for EnumDescriptor {
    type V = EnumDescriptorModel;

    closed spec fn view(&self) -> EnumDescriptorModel {
        EnumDescriptorModel { id: self.id, known: self.values@ }
    }
}

impl EnumDescriptor {
    /// Builds the descriptor of a family with the given identity and declared
    /// numbers.
    pub fn new(id: u64, values: Vec<i32>) -> (r: EnumDescriptor)
        ensures
            r@ == (EnumDescriptorModel { id, known: values@ }),
    {
        EnumDescriptor { id, values }
    }

    /// The identity of the family.
    pub fn id(&self) -> (r: u64)
        ensures
            r == self@.id,
    {
        self.id
    }

    /// Whether the schema declares the given number for this family.
    pub fn is_known(&self, number: i32) -> (r: bool)
        ensures
            r == self@.known.contains(number),
    {
        let mut i: usize = 0;
        while i < self.values.len()
            invariant
                0 <= i <= self.values.len(),
                forall|j: int| 0 <= j < i ==> self.values@[j] != number,
            decreases self.values.len() - i,
        {
            if self.values[i] == number {
                return true;
            }
            i += 1;
        }
        false
    }

    /// Whether two descriptors describe the same family, by their whole
    /// content.  Interned descriptors of one family are equal; distinct
    /// families have distinct identities.
    pub fn same_family(&self, other: &EnumDescriptor) -> (r: bool)
        ensures
            r == (self@ == other@),
    {
        if self.id != other.id {
            return false;
        }
        if self.values.len() != other.values.len() {
            proof {
                assert(self@.known.len() != other@.known.len());
            }
            return false;
        }
        let mut i: usize = 0;
        while i < self.values.len()
            invariant
                0 <= i <= self.values.len(),
                self.id == other.id,
                self.values.len() == other.values.len(),
                forall|j: int| 0 <= j < i ==> self.values@[j] == other.values@[j],
            decreases self.values.len() - i,
        {
            if self.values[i] != other.values[i] {
                return false;
            }
            i += 1;
        }
        proof {
            assert(self@.known =~= other@.known);
        }
        true
    }
}

/// The contract a concrete enum type implements, normally in generated code:
/// it belongs to one descriptor-described family, every one of its values
/// carries a declared number, and a declared number names exactly one value.
pub trait ProtobufEnum: Sized + Send + Sync {
    /// Model of the family's descriptor.
    spec fn family() -> EnumDescriptorModel;

    /// The integer number of this value.
    spec fn number_spec(self) -> i32;

    /// Every value of the type carries a number the family declares.
    proof fn number_known(self)
        ensures
            Self::family().known.contains(self.number_spec()),
    ;

    /// The process-wide descriptor of this family.
    fn enum_descriptor() -> (r: &'static EnumDescriptor)
        ensures
            r@ == Self::family(),
    ;

    /// The value with the given number, when the family declares it.
    fn from_i32(v: i32) -> (r: Option<Self>)
        ensures
            r is Some <==> Self::family().known.contains(v),
            r is Some ==> r->0.number_spec() == v,
    ;

    /// The underlying integer number of this value.
    fn value(&self) -> (r: i32)
        ensures
            r == self.number_spec(),
    ;
}

/// An enum value tolerant of numbers the schema does not declare: it holds
/// the raw integer, which data written by a newer schema may have produced.
pub struct ProtobufEnumOrUnknown<E: ProtobufEnum> {
    value: i32,
    family: PhantomData<E>,
}

impl<E: ProtobufEnum> ProtobufEnumOrUnknown<E> {
    /// The integer number this wrapper holds.
    pub closed spec fn number(self) -> i32 {
        self.value
    }

    /// Wraps a raw integer, declared by the schema or not.
    pub fn from_i32(value: i32) -> (r: ProtobufEnumOrUnknown<E>)
        ensures
            r.number() == value,
    {
        ProtobufEnumOrUnknown { value, family: PhantomData }
    }

    /// The raw integer.
    pub fn value(&self) -> (r: i32)
        ensures
            r == self.number(),
    {
        self.value
    }

    /// The concrete enum value, or the raw integer when the schema does not
    /// declare it.
    pub fn enum_value(&self) -> (r: Result<E, i32>)
        ensures
            match r {
                Ok(v) => E::family().known.contains(self.number()) && v.number_spec()
                    == self.number(),
                Err(n) => !E::family().known.contains(self.number()) && n == self.number(),
            },
    {
        match E::from_i32(self.value) {
            Some(v) => Ok(v),
            None => Err(self.value),
        }
    }
}

} // verus!
