//! JNI handle types.

use vstd::prelude::*;

verus! {

pub type Jint = libc::c_long;

pub type Jlong = libc::c_longlong;

pub type Jbyte = i8;

/// A handle into the virtual machine's address space; zero is the null handle.
pub type Jpointer = u64;

pub type Jboolean = u8;

pub type Jchar = u16;

pub type Jshort = i16;

pub type Jsize = Jint;

pub type Jobject = Jpointer;

pub type Jclass = Jobject;

pub type Jthrowable = Jobject;

pub type Jstring = Jobject;

pub type Jarray = Jobject;

pub type JbooleanArray = Jarray;

pub type JbyteArray = Jarray;

pub type JcharArray = Jarray;

pub type JshortArray = Jarray;

pub type JintArray = Jarray;

pub type JlongArray = Jarray;

pub type JfloatArray = Jarray;

pub type JdoubleArray = Jarray;

pub type JobjectArray = Jarray;

pub type Jtweak = Jobject;

/// An argument of a method call; a union in C, only object arguments here.
pub type Jvalue = Jobject;

pub type JfieldID = Jpointer;

pub type JmethodID = Jpointer;

/// The kinds of reference that `GetObjectRefType` reports.
#[derive(Clone, Copy, Debug, PartialEq, Eq, Structural)]
pub enum JobjectRefType {
    JNIInvalidRefType,
    JNILocalRefType,
    JNIGlobalRefType,
    JNIWeakGlobalRefType,
}

impl JobjectRefType {
    /// The value that the C interface uses for this kind.
    pub open spec fn spec_code(self) -> Jint {
        match self {
            JobjectRefType::JNIInvalidRefType => 0,
            JobjectRefType::JNILocalRefType => 1,
            JobjectRefType::JNIGlobalRefType => 2,
            JobjectRefType::JNIWeakGlobalRefType => 3,
        }
    }

    /// The value that the C interface uses for this kind.
    pub fn code(&self) -> (r: Jint)
        ensures
            r == self.spec_code(),
    {
        match self {
            JobjectRefType::JNIInvalidRefType => 0,
            JobjectRefType::JNILocalRefType => 1,
            JobjectRefType::JNIGlobalRefType => 2,
            JobjectRefType::JNIWeakGlobalRefType => 3,
        }
    }

    /// The kind with the given C value, if there is one.
    pub fn from_code(code: Jint) -> (r: Option<JobjectRefType>)
        ensures
            r matches Some(k) ==> k.spec_code() == code,
            r is None <==> !(0 <= code <= 3),
    {
        if code == 0 {
            Some(JobjectRefType::JNIInvalidRefType)
        } else if code == 1 {
            Some(JobjectRefType::JNILocalRefType)
        } else if code == 2 {
            Some(JobjectRefType::JNIGlobalRefType)
        } else if code == 3 {
            Some(JobjectRefType::JNIWeakGlobalRefType)
        } else {
            None
        }
    }
}

/// Whether a handle is the null handle.
pub open spec fn spec_is_null(p: Jpointer) -> bool {
    p == 0
}

/// Whether a handle is the null handle.
pub fn is_null(p: Jpointer) -> (r: bool)
    ensures
        r == spec_is_null(p),
{
    p == 0u64
}

} // verus!
