use jni::consts::{JNI_EVERSION, JNI_NULL, JNI_OK};
use jni::error::{check_creation_status, JniError};
use jni::types::{is_null, JobjectRefType};
use jni::vm::holds_nul;
use jni::JNI;

#[test]
fn null_handle() {
    assert!(is_null(0));
    assert!(is_null(JNI_NULL));
    assert!(!is_null(1));
    assert!(!is_null(u64::MAX));
}

#[test]
fn ref_type_codes() {
    assert_eq!(JobjectRefType::JNIInvalidRefType.code(), 0);
    assert_eq!(JobjectRefType::JNILocalRefType.code(), 1);
    assert_eq!(JobjectRefType::JNIGlobalRefType.code(), 2);
    assert_eq!(JobjectRefType::JNIWeakGlobalRefType.code(), 3);
    assert_eq!(JobjectRefType::from_code(2), Some(JobjectRefType::JNIGlobalRefType));
    assert_eq!(JobjectRefType::from_code(4), None);
    assert_eq!(JobjectRefType::from_code(-1), None);
}

#[test]
fn creation_status_ok() {
    assert!(check_creation_status(JNI_OK).is_ok());
}

#[test]
fn creation_status_reported_verbatim() {
    assert!(matches!(
        check_creation_status(JNI_EVERSION),
        Err(JniError::CreationFailed { code: -3 })
    ));
    assert!(matches!(check_creation_status(17), Err(JniError::CreationFailed { code: 17 })));
}

#[test]
fn nul_detection() {
    assert!(holds_nul("a\0b"));
    assert!(!holds_nul("libjvm.so"));
    assert!(!holds_nul(""));
}

#[test]
fn missing_library_is_reported() {
    match JNI::new("/nonexistent/dir/libjvm.so") {
        Err(JniError::LibraryNotFound { path, reason }) => {
            assert_eq!(path, "/nonexistent/dir/libjvm.so");
            assert!(!reason.is_empty());
        }
        Err(other) => panic!("unexpected error {:?}", other),
        Ok(_) => panic!("a missing library was opened"),
    }
}

#[test]
fn path_with_nul_is_refused() {
    assert!(matches!(
        JNI::new("lib\0jvm.so"),
        Err(JniError::LibraryNotFound { .. })
    ));
}

#[test]
fn creation_records_handles() {
    // The C library of the process stands in for the virtual machine's.
    let mut jni = match JNI::new("libc.so.6") {
        Ok(jni) => jni,
        Err(e) => panic!("could not open the C library: {:?}", e),
    };
    assert_eq!(jni.get_jvm(), 0);
    assert_eq!(jni.get_env(), 0);
    assert!(jni.vm_init_args().finish().is_empty());

    jni.init_vm_args(2);
    assert!(jni.push_vm_arg(0, "-Xmx256m").is_ok());
    assert!(matches!(
        jni.push_vm_arg(2, "-verbose"),
        Err(JniError::OutOfRange { index: 2, capacity: 2 })
    ));
    assert_eq!(jni.vm_init_args().finish(), &vec![Some(b"-Xmx256m\0".to_vec()), None]);

    assert!(matches!(
        jni.finish_creation(-1, 11, 12),
        Err(JniError::CreationFailed { code: -1 })
    ));
    assert_eq!(jni.get_jvm(), 0);
    assert_eq!(jni.get_env(), 0);

    assert!(jni.finish_creation(JNI_OK, 11, 12).is_ok());
    assert_eq!(jni.get_jvm(), 11);
    assert_eq!(jni.get_env(), 12);
}
