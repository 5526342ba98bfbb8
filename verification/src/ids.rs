//! Identifiers and generations.
use vstd::prelude::*;

use crate::same::Same;
use crate::text;

verus! {

/// A text that is not blank.
#[derive(Debug, PartialEq, Eq)]
pub struct NonEmptyString(String);

/// A field that was left blank.
#[derive(Debug, PartialEq, Eq)]
pub struct EmptyStringError {
    field: &'static str,
}

impl View for NonEmptyString {
    type V = Seq<char>;

    closed spec fn view(&self) -> Seq<char> {
        self.0@
    }
}

impl DeepView for NonEmptyString {
    type V = Seq<char>;

    open spec fn deep_view(&self) -> Seq<char> {
        self@
    }
}

impl View for EmptyStringError {
    type V = Seq<char>;

    closed spec fn view(&self) -> Seq<char> {
        self.field@
    }
}

impl DeepView for EmptyStringError {
    type V = Seq<char>;

    open spec fn deep_view(&self) -> Seq<char> {
        self@
    }
}

/// What is shown for a blank field.
pub open spec fn empty_string_message(field: Seq<char>) -> Seq<char> {
    field + " must not be empty"@
}

impl NonEmptyString {
    #[verifier::type_invariant]
    spec fn not_blank(&self) -> bool {
        !text::is_blank(self.0@)
    }

    /// Takes a value that is not blank; the error names the field.
    pub fn new(field: &'static str, value: &str) -> (r: Result<Self, EmptyStringError>)
        ensures
            r is Ok <==> !text::is_blank(value@),
            r matches Ok(text) ==> text@ == value@,
            r matches Err(error) ==> error@ == field@,
    {
        if text::blank(value) {
            return Err(EmptyStringError { field });
        }
        Ok(NonEmptyString(value.to_owned()))
    }

    pub fn as_str(&self) -> (r: &str)
        ensures
            r@ == self@,
            !text::is_blank(self@),
    {
        proof {
            use_type_invariant(self);
        }
        self.0.as_str()
    }

    pub fn into_inner(self) -> (r: String)
        ensures
            r@ == self@,
            !text::is_blank(self@),
    {
        proof {
            use_type_invariant(&self);
        }
        self.0
    }
}

impl Clone for NonEmptyString {
    fn clone(&self) -> (r: Self)
        ensures
            r@ == self@,
    {
        proof {
            use_type_invariant(self);
        }
        NonEmptyString(self.0.clone())
    }
}

impl EmptyStringError {
    pub(crate) fn blank(field: &'static str) -> (r: Self)
        ensures
            r@ == field@,
    {
        EmptyStringError { field }
    }

    pub fn field(&self) -> (r: &'static str)
        ensures
            r@ == self@,
    {
        self.field
    }

    pub fn to_string(&self) -> (r: String)
        ensures
            r@ == empty_string_message(self@),
    {
        text::join2(self.field, " must not be empty")
    }
}

impl Clone for EmptyStringError {
    fn clone(&self) -> (r: Self)
        ensures
            r@ == self@,
    {
        EmptyStringError { field: self.field }
    }
}

/// The key under which a request may be replayed.
#[derive(Debug, PartialEq, Eq, PartialOrd, Ord, Hash)]
pub struct IdempotencyKey(String);

impl View for IdempotencyKey {
    type V = Seq<char>;

    closed spec fn view(&self) -> Seq<char> {
        self.0@
    }
}

impl DeepView for IdempotencyKey {
    type V = Seq<char>;

    open spec fn deep_view(&self) -> Seq<char> {
        self@
    }
}

impl IdempotencyKey {
    #[verifier::type_invariant]
    spec fn not_blank(&self) -> bool {
        !text::is_blank(self.0@)
    }

    /// Takes a value that is not blank.
    pub fn new(value: &str) -> (r: Result<Self, EmptyStringError>)
        ensures
            r is Ok <==> !text::is_blank(value@),
            r matches Ok(id) ==> id@ == value@,
            r matches Err(error) ==> error@ == "IdempotencyKey"@,
    {
        match NonEmptyString::new("IdempotencyKey", value) {
            Ok(value) => Ok(IdempotencyKey(value.into_inner())),
            Err(error) => Err(error),
        }
    }

    pub fn as_str(&self) -> (r: &str)
        ensures
            r@ == self@,
            !text::is_blank(self@),
    {
        proof {
            use_type_invariant(self);
        }
        self.0.as_str()
    }

    pub fn into_inner(self) -> (r: String)
        ensures
            r@ == self@,
            !text::is_blank(self@),
    {
        proof {
            use_type_invariant(&self);
        }
        self.0
    }

    pub fn to_string(&self) -> (r: String)
        ensures
            r@ == self@,
    {
        self.0.clone()
    }
}

impl Clone for IdempotencyKey {
    fn clone(&self) -> (r: Self)
        ensures
            r@ == self@,
    {
        proof {
            use_type_invariant(self);
        }
        IdempotencyKey(self.0.clone())
    }
}

/// The identity of an instance.
#[derive(Debug, PartialEq, Eq, PartialOrd, Ord, Hash)]
pub struct InstanceId(String);

impl View for InstanceId {
    type V = Seq<char>;

    closed spec fn view(&self) -> Seq<char> {
        self.0@
    }
}

impl DeepView for InstanceId {
    type V = Seq<char>;

    open spec fn deep_view(&self) -> Seq<char> {
        self@
    }
}

impl InstanceId {
    #[verifier::type_invariant]
    spec fn not_blank(&self) -> bool {
        !text::is_blank(self.0@)
    }

    /// Takes a value that is not blank.
    pub fn new(value: &str) -> (r: Result<Self, EmptyStringError>)
        ensures
            r is Ok <==> !text::is_blank(value@),
            r matches Ok(id) ==> id@ == value@,
            r matches Err(error) ==> error@ == "InstanceId"@,
    {
        match NonEmptyString::new("InstanceId", value) {
            Ok(value) => Ok(InstanceId(value.into_inner())),
            Err(error) => Err(error),
        }
    }

    pub fn as_str(&self) -> (r: &str)
        ensures
            r@ == self@,
            !text::is_blank(self@),
    {
        proof {
            use_type_invariant(self);
        }
        self.0.as_str()
    }

    pub fn into_inner(self) -> (r: String)
        ensures
            r@ == self@,
            !text::is_blank(self@),
    {
        proof {
            use_type_invariant(&self);
        }
        self.0
    }

    pub fn to_string(&self) -> (r: String)
        ensures
            r@ == self@,
    {
        self.0.clone()
    }
}

impl Clone for InstanceId {
    fn clone(&self) -> (r: Self)
        ensures
            r@ == self@,
    {
        proof {
            use_type_invariant(self);
        }
        InstanceId(self.0.clone())
    }
}

/// The identity of a workload class.
#[derive(Debug, PartialEq, Eq, PartialOrd, Ord, Hash)]
pub struct WorkloadClassId(String);

impl View for WorkloadClassId {
    type V = Seq<char>;

    closed spec fn view(&self) -> Seq<char> {
        self.0@
    }
}

impl DeepView for WorkloadClassId {
    type V = Seq<char>;

    open spec fn deep_view(&self) -> Seq<char> {
        self@
    }
}

impl WorkloadClassId {
    #[verifier::type_invariant]
    spec fn not_blank(&self) -> bool {
        !text::is_blank(self.0@)
    }

    /// Takes a value that is not blank.
    pub fn new(value: &str) -> (r: Result<Self, EmptyStringError>)
        ensures
            r is Ok <==> !text::is_blank(value@),
            r matches Ok(id) ==> id@ == value@,
            r matches Err(error) ==> error@ == "WorkloadClassId"@,
    {
        match NonEmptyString::new("WorkloadClassId", value) {
            Ok(value) => Ok(WorkloadClassId(value.into_inner())),
            Err(error) => Err(error),
        }
    }

    pub fn as_str(&self) -> (r: &str)
        ensures
            r@ == self@,
            !text::is_blank(self@),
    {
        proof {
            use_type_invariant(self);
        }
        self.0.as_str()
    }

    pub fn into_inner(self) -> (r: String)
        ensures
            r@ == self@,
            !text::is_blank(self@),
    {
        proof {
            use_type_invariant(&self);
        }
        self.0
    }

    pub fn to_string(&self) -> (r: String)
        ensures
            r@ == self@,
    {
        self.0.clone()
    }
}

impl Clone for WorkloadClassId {
    fn clone(&self) -> (r: Self)
        ensures
            r@ == self@,
    {
        proof {
            use_type_invariant(self);
        }
        WorkloadClassId(self.0.clone())
    }
}

impl Same for WorkloadClassId {
    fn is_same(&self, other: &Self) -> (r: bool) {
        text::same(self.as_str(), other.as_str())
    }
}

/// The identity of a route binding.
#[derive(Debug, PartialEq, Eq, PartialOrd, Ord, Hash)]
pub struct RouteBindingId(String);

impl View for RouteBindingId {
    type V = Seq<char>;

    closed spec fn view(&self) -> Seq<char> {
        self.0@
    }
}

impl DeepView for RouteBindingId {
    type V = Seq<char>;

    open spec fn deep_view(&self) -> Seq<char> {
        self@
    }
}

impl RouteBindingId {
    #[verifier::type_invariant]
    spec fn not_blank(&self) -> bool {
        !text::is_blank(self.0@)
    }

    /// Takes a value that is not blank.
    pub fn new(value: &str) -> (r: Result<Self, EmptyStringError>)
        ensures
            r is Ok <==> !text::is_blank(value@),
            r matches Ok(id) ==> id@ == value@,
            r matches Err(error) ==> error@ == "RouteBindingId"@,
    {
        match NonEmptyString::new("RouteBindingId", value) {
            Ok(value) => Ok(RouteBindingId(value.into_inner())),
            Err(error) => Err(error),
        }
    }

    pub fn as_str(&self) -> (r: &str)
        ensures
            r@ == self@,
            !text::is_blank(self@),
    {
        proof {
            use_type_invariant(self);
        }
        self.0.as_str()
    }

    pub fn into_inner(self) -> (r: String)
        ensures
            r@ == self@,
            !text::is_blank(self@),
    {
        proof {
            use_type_invariant(&self);
        }
        self.0
    }

    pub fn to_string(&self) -> (r: String)
        ensures
            r@ == self@,
    {
        self.0.clone()
    }
}

impl Clone for RouteBindingId {
    fn clone(&self) -> (r: Self)
        ensures
            r@ == self@,
    {
        proof {
            use_type_invariant(self);
        }
        RouteBindingId(self.0.clone())
    }
}

/// The identity of a materialization.
#[derive(Debug, PartialEq, Eq, PartialOrd, Ord, Hash)]
pub struct MaterializationId(String);

impl View for MaterializationId {
    type V = Seq<char>;

    closed spec fn view(&self) -> Seq<char> {
        self.0@
    }
}

impl DeepView for MaterializationId {
    type V = Seq<char>;

    open spec fn deep_view(&self) -> Seq<char> {
        self@
    }
}

impl MaterializationId {
    #[verifier::type_invariant]
    spec fn not_blank(&self) -> bool {
        !text::is_blank(self.0@)
    }

    /// Takes a value that is not blank.
    pub fn new(value: &str) -> (r: Result<Self, EmptyStringError>)
        ensures
            r is Ok <==> !text::is_blank(value@),
            r matches Ok(id) ==> id@ == value@,
            r matches Err(error) ==> error@ == "MaterializationId"@,
    {
        match NonEmptyString::new("MaterializationId", value) {
            Ok(value) => Ok(MaterializationId(value.into_inner())),
            Err(error) => Err(error),
        }
    }

    pub fn as_str(&self) -> (r: &str)
        ensures
            r@ == self@,
            !text::is_blank(self@),
    {
        proof {
            use_type_invariant(self);
        }
        self.0.as_str()
    }

    pub fn into_inner(self) -> (r: String)
        ensures
            r@ == self@,
            !text::is_blank(self@),
    {
        proof {
            use_type_invariant(&self);
        }
        self.0
    }

    pub fn to_string(&self) -> (r: String)
        ensures
            r@ == self@,
    {
        self.0.clone()
    }
}

impl Clone for MaterializationId {
    fn clone(&self) -> (r: Self)
        ensures
            r@ == self@,
    {
        proof {
            use_type_invariant(self);
        }
        MaterializationId(self.0.clone())
    }
}

/// How often an instance, class or template has changed.
#[derive(Clone, Copy, Debug, PartialEq, Eq, PartialOrd, Ord, Hash, Structural)]
pub struct Generation(pub u64);

impl View for Generation {
    type V = nat;

    open spec fn view(&self) -> nat {
        self.0 as nat
    }
}

impl DeepView for Generation {
    type V = nat;

    open spec fn deep_view(&self) -> nat {
        self@
    }
}

impl Same for Generation {
    fn is_same(&self, other: &Self) -> (r: bool) {
        self.0 == other.0
    }
}

impl Generation {
    pub fn new(value: u64) -> (r: Self)
        ensures
            r@ == value,
    {
        Generation(value)
    }

    pub fn get(self) -> (r: u64)
        ensures
            r == self@,
    {
        self.0
    }

    /// The generation that follows.
    pub fn next(self) -> (r: Self)
        requires
            self@ < u64::MAX,
        ensures
            r@ == self@ + 1,
    {
        Generation(self.0 + 1)
    }

    pub fn to_string(&self) -> (r: String)
        ensures
            r@ == text::decimal(self@),
    {
        text::number(self.0)
    }
}

impl Default for Generation {
    fn default() -> (r: Self)
        ensures
            r@ == 0,
    {
        Generation(0)
    }
}

/// How often the backend of a materialization has changed.
#[derive(Clone, Copy, Debug, PartialEq, Eq, PartialOrd, Ord, Hash, Structural)]
pub struct BackendGeneration(pub u64);

impl View for BackendGeneration {
    type V = nat;

    open spec fn view(&self) -> nat {
        self.0 as nat
    }
}

impl DeepView for BackendGeneration {
    type V = nat;

    open spec fn deep_view(&self) -> nat {
        self@
    }
}

impl BackendGeneration {
    pub fn new(value: u64) -> (r: Self)
        ensures
            r@ == value,
    {
        BackendGeneration(value)
    }

    pub fn get(self) -> (r: u64)
        ensures
            r == self@,
    {
        self.0
    }

    /// The generation that follows.
    pub fn next(self) -> (r: Self)
        requires
            self@ < u64::MAX,
        ensures
            r@ == self@ + 1,
    {
        BackendGeneration(self.0 + 1)
    }

    pub fn to_string(&self) -> (r: String)
        ensures
            r@ == text::decimal(self@),
    {
        text::number(self.0)
    }
}

impl Default for BackendGeneration {
    fn default() -> (r: Self)
        ensures
            r@ == 0,
    {
        BackendGeneration(0)
    }
}

} // verus!
