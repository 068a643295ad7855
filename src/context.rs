//! What a host object answers to its no-argument getters, and typed access
//! to those answers.
//!
//! Host objects are read before any of the library's logic runs: for each
//! getter, by name and signature, the value it returned. Objects are referred
//! to by the host's reference ids.
use vstd::prelude::*;

use crate::notification::copy_bytes;

verus! {

/// A value that a host getter returned.
pub enum HostValue {
    Int(i32),
    Long(i64),
    Bool(bool),
    Bytes(Vec<u8>),
    /// A reference to a host object, or `None` for null.
    Object(Option<u64>),
    /// A host list of object references.
    List(Vec<u64>),
    /// A null array or list.
    Null,
}

/// Failures of reading a host object.
#[derive(Clone, Copy, Debug, PartialEq, Eq, Structural)]
pub enum JniError {
    /// The object has no method of that name and signature.
    MethodNotFound,
    /// The method returned a value of another type than the getter reads.
    WrongJValueType,
    /// The method returned null where a value was needed.
    NullPtr,
}

/// One getter of a host object and what it returned.
pub struct MethodAnswer {
    pub name: String,
    pub sig: String,
    pub value: HostValue,
}

pub const INT_SIG: &'static str = "()I";
pub const LONG_SIG: &'static str = "()J";
pub const BOOL_SIG: &'static str = "()Z";
pub const BYTE_ARRAY_SIG: &'static str = "()[B";
pub const LIST_SIG: &'static str = "()Ljava/util/List;";

/// The value of the first answer to a getter of the given name and
/// signature.
pub open spec fn answer_of(answers: Seq<MethodAnswer>, name: Seq<char>, sig: Seq<char>) -> Option<HostValue>
    decreases answers.len(),
{
    if answers.len() == 0 {
        None
    } else if answers[0].name@ == name && answers[0].sig@ == sig {
        Some(answers[0].value)
    } else {
        answer_of(answers.drop_first(), name, sig)
    }
}

/// A host object together with what its getters answer.
pub struct JniContext {
    pub obj: u64,
    pub answers: Vec<MethodAnswer>,
}

fn copy_refs(v: &Vec<u64>) -> (r: Vec<u64>)
    ensures
        r@ == v@,
{
    let mut r: Vec<u64> = Vec::new();
    let mut i: usize = 0;
    while i < v.len()
        invariant
            i <= v@.len(),
            r@ == v@.subrange(0, i as int),
        decreases v@.len() - i,
    {
        r.push(v[i]);
        i = i + 1;
        assert(r@ =~= v@.subrange(0, i as int));
    }
    assert(v@.subrange(0, v@.len() as int) =~= v@);
    r
}

impl JniContext {
    pub fn new(obj: u64, answers: Vec<MethodAnswer>) -> (r: Self)
        ensures
            r.obj == obj,
            r.answers == answers,
    {
        JniContext { obj, answers }
    }

    /// The answer to a getter of the given name and signature.
    fn find(&self, method: &str, sig: &str) -> (r: Option<&HostValue>)
        ensures
            match r {
                Some(v) => answer_of(self.answers@, method@, sig@) == Some(*v),
                None => answer_of(self.answers@, method@, sig@) is None,
            },
    {
        let name = method.to_owned();
        let signature = sig.to_owned();
        let mut i: usize = 0;
        assert(self.answers@.subrange(0, self.answers@.len() as int) =~= self.answers@);
        while i < self.answers.len()
            invariant
                i <= self.answers@.len(),
                name@ == method@,
                signature@ == sig@,
                answer_of(self.answers@, method@, sig@) == answer_of(
                    self.answers@.subrange(i as int, self.answers@.len() as int),
                    method@,
                    sig@,
                ),
            decreases self.answers@.len() - i,
        {
            let ghost rest = self.answers@.subrange(i as int, self.answers@.len() as int);
            assert(rest[0] == self.answers@[i as int]);
            if self.answers[i].name == name && self.answers[i].sig == signature {
                return Some(&self.answers[i].value);
            }
            assert(rest.drop_first() =~= self.answers@.subrange(
                i as int + 1,
                self.answers@.len() as int,
            ));
            i = i + 1;
        }
        None
    }

    /// Reads an `int` getter.
    pub fn int_getter(&self, method: &str) -> (r: Result<i32, JniError>)
        ensures
            r == match answer_of(self.answers@, method@, INT_SIG@) {
                None => Err(JniError::MethodNotFound),
                Some(HostValue::Int(v)) => Ok(v),
                Some(_) => Err(JniError::WrongJValueType),
            },
    {
        match self.find(method, INT_SIG) {
            None => Err(JniError::MethodNotFound),
            Some(HostValue::Int(v)) => Ok(*v),
            Some(_) => Err(JniError::WrongJValueType),
        }
    }

    /// Reads a `long` getter.
    pub fn long_getter(&self, method: &str) -> (r: Result<i64, JniError>)
        ensures
            r == match answer_of(self.answers@, method@, LONG_SIG@) {
                None => Err(JniError::MethodNotFound),
                Some(HostValue::Long(v)) => Ok(v),
                Some(_) => Err(JniError::WrongJValueType),
            },
    {
        match self.find(method, LONG_SIG) {
            None => Err(JniError::MethodNotFound),
            Some(HostValue::Long(v)) => Ok(*v),
            Some(_) => Err(JniError::WrongJValueType),
        }
    }

    /// Reads a `boolean` getter.
    pub fn bool_getter(&self, method: &str) -> (r: Result<bool, JniError>)
        ensures
            r == match answer_of(self.answers@, method@, BOOL_SIG@) {
                None => Err(JniError::MethodNotFound),
                Some(HostValue::Bool(v)) => Ok(v),
                Some(_) => Err(JniError::WrongJValueType),
            },
    {
        match self.find(method, BOOL_SIG) {
            None => Err(JniError::MethodNotFound),
            Some(HostValue::Bool(v)) => Ok(*v),
            Some(_) => Err(JniError::WrongJValueType),
        }
    }

    /// Reads a `byte[]` getter.
    pub fn byte_arr_getter(&self, method: &str) -> (r: Result<Vec<u8>, JniError>)
        ensures
            match answer_of(self.answers@, method@, BYTE_ARRAY_SIG@) {
                None => r == Err::<Vec<u8>, JniError>(JniError::MethodNotFound),
                Some(HostValue::Bytes(v)) => r matches Ok(b) && b@ == v@,
                Some(HostValue::Null) => r == Err::<Vec<u8>, JniError>(JniError::NullPtr),
                Some(_) => r == Err::<Vec<u8>, JniError>(JniError::WrongJValueType),
            },
    {
        match self.find(method, BYTE_ARRAY_SIG) {
            None => Err(JniError::MethodNotFound),
            Some(HostValue::Bytes(v)) => Ok(copy_bytes(v)),
            Some(HostValue::Null) => Err(JniError::NullPtr),
            Some(_) => Err(JniError::WrongJValueType),
        }
    }

    /// Reads an object getter whose signature is `class`; null reads as
    /// `None`.
    pub fn object_getter(&self, method: &str, class: &str) -> (r: Result<Option<u64>, JniError>)
        ensures
            r == match answer_of(self.answers@, method@, class@) {
                None => Err(JniError::MethodNotFound),
                Some(HostValue::Object(o)) => Ok(o),
                Some(_) => Err(JniError::WrongJValueType),
            },
    {
        match self.find(method, class) {
            None => Err(JniError::MethodNotFound),
            Some(HostValue::Object(o)) => Ok(*o),
            Some(_) => Err(JniError::WrongJValueType),
        }
    }

    /// Reads a `java.util.List` getter as the references it holds.
    pub fn list_getter(&self, method: &str) -> (r: Result<Vec<u64>, JniError>)
        ensures
            match answer_of(self.answers@, method@, LIST_SIG@) {
                None => r == Err::<Vec<u64>, JniError>(JniError::MethodNotFound),
                Some(HostValue::List(v)) => r matches Ok(l) && l@ == v@,
                Some(HostValue::Null) => r == Err::<Vec<u64>, JniError>(JniError::NullPtr),
                Some(_) => r == Err::<Vec<u64>, JniError>(JniError::WrongJValueType),
            },
    {
        match self.find(method, LIST_SIG) {
            None => Err(JniError::MethodNotFound),
            Some(HostValue::List(v)) => Ok(copy_refs(v)),
            Some(HostValue::Null) => Err(JniError::NullPtr),
            Some(_) => Err(JniError::WrongJValueType),
        }
    }
}

} // verus!
