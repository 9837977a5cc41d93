//! The embedded virtual machine: its shared library, the options it is
//! created with, and the handles that creation hands back.
//!
//! Creating the machine calls through a function pointer that the library
//! exports; that call is made by the host, which hands the status and the
//! two handles to [`JNI::finish_creation`].

use vstd::prelude::*;

use shared_library::dynamic_library::DynamicLibrary;

use crate::error::{check_creation_status, JniError};
use crate::init_args::VmInitArgs;
use crate::types::{Jint, Jpointer};
use vstd::utf8::encode_utf8;

verus! {

#[verifier::external_type_specification]
#[verifier::external_body]
pub struct ExDynamicLibrary(DynamicLibrary);

/// The symbol through which the virtual machine is created.
pub const CREATE_SYMBOL: &'static str = "JNI_CreateJavaVM";

/// Relies on shared_library's `DynamicLibrary::open`, which hands the path to
/// `dlopen` and reports the loader's error text when it fails. It unwraps a
/// C string made of the path, so the path must hold no NUL byte.
#[verifier::external_body]
fn open_library(path: &str) -> (r: Result<DynamicLibrary, String>)
    requires
        !encode_utf8(path@).contains(0u8),
{
    DynamicLibrary::open(Some(std::path::Path::new(path)))
}

/// Whether a string's UTF-8 encoding holds a NUL byte.
pub fn holds_nul(text: &str) -> (r: bool)
    ensures
        r == encode_utf8(text@).contains(0u8),
{
    let bytes = text.as_bytes();
    let mut i: usize = 0;
    while i < bytes.len()
        invariant
            i <= bytes@.len(),
            bytes@ == encode_utf8(text@),
            forall|j: int| 0 <= j < i ==> bytes@[j] != 0u8,
        decreases bytes@.len() - i,
    {
        if bytes[i] == 0u8 {
            return true;
        }
        i = i + 1;
    }
    false
}

/// The embedded virtual machine.
pub struct JNI {
    libjvm: DynamicLibrary,
    vm_init_args: VmInitArgs,
    jvm: Jpointer,
    env: Jpointer,
}

impl JNI {
    /// The option slots the machine is to be created with.
    pub closed spec fn options(&self) -> Seq<Option<Seq<u8>>> {
        self.vm_init_args@
    }

    /// The handle of the created machine; null before creation.
    pub closed spec fn spec_jvm(&self) -> Jpointer {
        self.jvm
    }

    /// The environment handle of the creating thread; null before creation.
    pub closed spec fn spec_env(&self) -> Jpointer {
        self.env
    }

    /// The options can be handed to the machine.
    pub closed spec fn wf(&self) -> bool {
        self.vm_init_args.wf()
    }

    /// Opens the virtual machine's shared library. A path that holds a NUL
    /// byte cannot name a library and is refused without a call; any other
    /// failure of the platform's loader is reported with its text.
    pub fn new(libjvm_path: &str) -> (r: Result<JNI, JniError>)
        ensures
            encode_utf8(libjvm_path@).contains(0u8) ==> r is Err,
            r matches Ok(j) ==> j.wf() && j.options() == Seq::<Option<Seq<u8>>>::empty()
                && j.spec_jvm() == 0 && j.spec_env() == 0,
            r matches Err(e) ==> (e matches JniError::LibraryNotFound { path, .. } && path@
                == libjvm_path@),
    {
        if holds_nul(libjvm_path) {
            return Err(
                JniError::LibraryNotFound {
                    path: String::from_str(libjvm_path),
                    reason: String::from_str("the path holds a NUL byte"),
                },
            );
        }
        match open_library(libjvm_path) {
            Ok(libjvm) => {
                let vm_init_args = VmInitArgs::new(0);
                proof {
                    assert(vm_init_args@ =~= Seq::<Option<Seq<u8>>>::empty());
                }
                Ok(JNI { libjvm, vm_init_args, jvm: 0, env: 0 })
            },
            Err(reason) => Err(
                JniError::LibraryNotFound { path: String::from_str(libjvm_path), reason },
            ),
        }
    }

    /// Replaces the options with `n_options` slots, each holding the null
    /// string.
    pub fn init_vm_args(&mut self, n_options: usize)
        requires
            n_options <= i64::MAX,
        ensures
            final(self).wf(),
            final(self).options() == Seq::new(n_options as nat, |i: int| None::<Seq<u8>>),
            final(self).spec_jvm() == old(self).spec_jvm(),
            final(self).spec_env() == old(self).spec_env(),
    {
        self.vm_init_args = VmInitArgs::new(n_options);
    }

    /// Stores `option` in slot `index` of the options; see
    /// [`VmInitArgs::push_vm_arg`].
    pub fn push_vm_arg(&mut self, index: usize, option: &str) -> (r: Result<(), JniError>)
        requires
            old(self).wf(),
        ensures
            final(self).wf(),
            r is Ok <==> index < old(self).options().len(),
            r is Ok ==> final(self).options() == old(self).options().update(
                index as int,
                Some(crate::init_args::c_string_of(option@)),
            ),
            r matches Err(e) ==> e == (JniError::OutOfRange {
                index,
                capacity: old(self).options().len() as usize,
            }),
            r is Err ==> final(self).options() == old(self).options(),
            final(self).spec_jvm() == old(self).spec_jvm(),
            final(self).spec_env() == old(self).spec_env(),
    {
        self.vm_init_args.push_vm_arg(index, option)
    }

    /// The options the machine is to be created with.
    pub fn vm_init_args(&self) -> (r: &VmInitArgs)
        ensures
            r@ == self.options(),
            r.wf() == self.wf(),
    {
        &self.vm_init_args
    }

    /// The opened shared library, where the creation symbol is looked up.
    pub fn library(&self) -> &DynamicLibrary {
        &self.libjvm
    }

    /// Records what `JNI_CreateJavaVM` gave back. On `JNI_OK` the two
    /// handles are kept; any other status is reported and leaves the
    /// handles as they were.
    pub fn finish_creation(&mut self, status: Jint, jvm: Jpointer, env: Jpointer) -> (r: Result<
        (),
        JniError,
    >)
        ensures
            r is Ok <==> status == crate::consts::JNI_OK,
            r matches Err(e) ==> e == (JniError::CreationFailed { code: status }),
            r is Ok ==> final(self).spec_jvm() == jvm && final(self).spec_env() == env,
            r is Err ==> final(self).spec_jvm() == old(self).spec_jvm() && final(self).spec_env()
                == old(self).spec_env(),
            final(self).options() == old(self).options(),
            final(self).wf() == old(self).wf(),
    {
        let checked = check_creation_status(status);
        if checked.is_ok() {
            self.jvm = jvm;
            self.env = env;
        }
        checked
    }

    /// The handle of the created machine; null before creation.
    pub fn get_jvm(&self) -> (r: Jpointer)
        ensures
            r == self.spec_jvm(),
    {
        self.jvm
    }

    /// The environment handle of the creating thread; null before creation.
    pub fn get_env(&self) -> (r: Jpointer)
        ensures
            r == self.spec_env(),
    {
        self.env
    }
}

} // verus!
