//! Embedding a Java virtual machine through the JNI invocation interface.
//!
//! The library holds the verified parts of the embedding: the handle
//! types, the option buffer handed to `JNI_CreateJavaVM`, the
//! classification of its status codes, and the bootstrap protocol that
//! loads a class from a user archive through a fresh class loader.

pub mod consts;
pub mod types;
pub mod error;
pub mod init_args;
pub mod classpath;
pub mod vm;

pub use vm::JNI;
