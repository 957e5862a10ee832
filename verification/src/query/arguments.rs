//! The arguments that fill a statement's placeholders.

use vstd::prelude::*;
use vstd::string::*;

verus! {

/// One argument of a statement.
///
/// A floating-point argument is held as the JSON number that stands for it.
#[derive(Debug, PartialEq)]
pub enum RqliteArgument {
    String(String),
    I64(i64),
    F64(String),
    F32(String),
    Bool(bool),
    Null,
}

impl Clone for RqliteArgument {
    fn clone(&self) -> (copy: RqliteArgument)
        ensures
            copy == *self,
    {
        match self {
            RqliteArgument::String(text) => RqliteArgument::String(text.clone()),
            RqliteArgument::I64(number) => RqliteArgument::I64(*number),
            RqliteArgument::F64(number) => RqliteArgument::F64(number.clone()),
            RqliteArgument::F32(number) => RqliteArgument::F32(number.clone()),
            RqliteArgument::Bool(flag) => RqliteArgument::Bool(*flag),
            RqliteArgument::Null => RqliteArgument::Null,
        }
    }
}

/// The number that `number` becomes when it is written into 64 signed bits.
pub open spec fn wrapped(number: nat) -> int {
    if number <= i64::MAX {
        number as int
    } else {
        number - 0x1_0000_0000_0000_0000
    }
}

/// A value that can be given as an argument.
pub trait RqliteArgumentRaw {
    /// The argument that stands for the value.
    fn encode(&self) -> RqliteArgument;
}

impl RqliteArgumentRaw for i32 {
    fn encode(&self) -> (argument: RqliteArgument)
        ensures
            argument == RqliteArgument::I64(*self as i64),
    {
        RqliteArgument::I64(*self as i64)
    }
}

impl RqliteArgumentRaw for i64 {
    fn encode(&self) -> (argument: RqliteArgument)
        ensures
            argument == RqliteArgument::I64(*self),
    {
        RqliteArgument::I64(*self)
    }
}

impl RqliteArgumentRaw for usize {
    /// A number beyond the largest that an argument holds wraps around.
    fn encode(&self) -> (argument: RqliteArgument)
        ensures
            argument matches RqliteArgument::I64(number) && number == wrapped(*self as nat),
    {
        let number = *self as u64;
        if number <= 0x7fff_ffff_ffff_ffff {
            RqliteArgument::I64(number as i64)
        } else {
            let above: u64 = number - 0x8000_0000_0000_0000;
            RqliteArgument::I64(i64::MIN + (above as i64))
        }
    }
}

impl RqliteArgumentRaw for bool {
    fn encode(&self) -> (argument: RqliteArgument)
        ensures
            argument == RqliteArgument::Bool(*self),
    {
        RqliteArgument::Bool(*self)
    }
}

impl RqliteArgumentRaw for &str {
    fn encode(&self) -> (argument: RqliteArgument)
        ensures
            argument matches RqliteArgument::String(text) && text@ == self@,
    {
        RqliteArgument::String(String::from_str(*self))
    }
}

impl RqliteArgumentRaw for String {
    fn encode(&self) -> (argument: RqliteArgument)
        ensures
            argument matches RqliteArgument::String(text) && text@ == self@,
    {
        RqliteArgument::String(self.clone())
    }
}

impl<T: RqliteArgumentRaw> RqliteArgumentRaw for Option<T> {
    /// What the value encodes as, and null where there is no value.
    fn encode(&self) -> (argument: RqliteArgument)
        ensures
            match self {
                Some(value) => call_ensures(T::encode, (value,), argument),
                None => argument is Null,
            },
    {
        match self {
            Some(value) => value.encode(),
            None => RqliteArgument::Null,
        }
    }
}

} // verus!
