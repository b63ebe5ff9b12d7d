use vstd::prelude::*;
use crate::text::str_equals;

verus! {

/// A type that a foreign function takes or returns.
#[derive(Debug, Clone, Copy, PartialEq, Eq)]
pub enum FFIType {
    I8,
    U8,
    I16,
    U16,
    I32,
    U32,
    I64,
    U64,
    F32,
    F64,
    Void,
    Pointer,
    Isize,
    Usize,
}

/// The type a type name stands for, where it names one.
pub open spec fn ffi_named(name: Seq<char>) -> Option<FFIType> {
    if name == "i8"@ {
        Some(FFIType::I8)
    } else if name == "u8"@ {
        Some(FFIType::U8)
    } else if name == "i16"@ {
        Some(FFIType::I16)
    } else if name == "u16"@ {
        Some(FFIType::U16)
    } else if name == "i32"@ {
        Some(FFIType::I32)
    } else if name == "u32"@ {
        Some(FFIType::U32)
    } else if name == "i64"@ {
        Some(FFIType::I64)
    } else if name == "u64"@ {
        Some(FFIType::U64)
    } else if name == "f32"@ {
        Some(FFIType::F32)
    } else if name == "f64"@ {
        Some(FFIType::F64)
    } else if name == "void"@ {
        Some(FFIType::Void)
    } else if name == "ptr"@ {
        Some(FFIType::Pointer)
    } else if name == "isize"@ {
        Some(FFIType::Isize)
    } else if name == "usize"@ {
        Some(FFIType::Usize)
    } else {
        None
    }
}

impl FFIType {
    /// The type a type name stands for; only the known names are accepted.
    pub fn from(name: &str) -> (r: Self)
        requires
            ffi_named(name@) is Some,
        ensures
            ffi_named(name@) == Some(r),
    {
        if str_equals(name, "i8") {
            FFIType::I8
        } else if str_equals(name, "u8") {
            FFIType::U8
        } else if str_equals(name, "i16") {
            FFIType::I16
        } else if str_equals(name, "u16") {
            FFIType::U16
        } else if str_equals(name, "i32") {
            FFIType::I32
        } else if str_equals(name, "u32") {
            FFIType::U32
        } else if str_equals(name, "i64") {
            FFIType::I64
        } else if str_equals(name, "u64") {
            FFIType::U64
        } else if str_equals(name, "f32") {
            FFIType::F32
        } else if str_equals(name, "f64") {
            FFIType::F64
        } else if str_equals(name, "void") {
            FFIType::Void
        } else if str_equals(name, "ptr") {
            FFIType::Pointer
        } else if str_equals(name, "isize") {
            FFIType::Isize
        } else {
            FFIType::Usize
        }
    }
}

} // verus!
