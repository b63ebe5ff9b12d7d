pub mod crypto;
pub mod ffi;
pub mod strings;
pub mod threads;
pub mod ops;
pub mod values;
pub mod vm;
