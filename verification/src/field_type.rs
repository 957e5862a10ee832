//! How a field of a record is read from a row, going by the field's type.

use vstd::prelude::*;
use crate::text::same_text;

verus! {

/// The way in which a field is read.
#[derive(Debug, Clone, Copy, PartialEq, Eq)]
pub enum FieldType {
    /// The field may be absent or null.
    Option,
    /// The field is a blob that arrives as base64 text.
    Blob,
    /// The field is read as it is.
    Normal,
}

/// What `from_type_path` decides for a type whose path ends in `last`, with
/// `argument` as the last name of its first type argument: `Option` is
/// optional, a `Vec` of `u8` is a blob, anything else is read as it is.
pub open spec fn field_type_of(last: Seq<char>, argument: Option<Seq<char>>) -> FieldType {
    if last == "Option"@ {
        FieldType::Option
    } else if last == "Vec"@ && argument == Some("u8"@) {
        FieldType::Blob
    } else {
        FieldType::Normal
    }
}

/// Whether a type whose path ends in `last` is a `Vec`.
pub fn is_vec_type(last: &str) -> (is_vec: bool)
    ensures
        is_vec == (last@ == "Vec"@),
{
    same_text(last, "Vec")
}

/// Whether the first type argument, given by the last name of its path if
/// it is a path, is `u8`.
pub fn has_u8_generic_arg(argument: Option<&str>) -> (is_u8: bool)
    ensures
        is_u8 == (argument matches Some(name) && name@ == "u8"@),
{
    match argument {
        Some(name) => same_text(name, "u8"),
        None => false,
    }
}

impl FieldType {
    /// The way in which a field is read, going by the last name of its
    /// type's path and by the last name of that type's first argument.
    pub fn from_type_path(last: &str, argument: Option<&str>) -> (field_type: FieldType)
        ensures
            field_type == field_type_of(
                last@,
                match argument {
                    Some(name) => Some(name@),
                    None => None,
                },
            ),
    {
        if same_text(last, "Option") {
            return FieldType::Option;
        }
        if is_vec_type(last) && has_u8_generic_arg(argument) {
            return FieldType::Blob;
        }
        FieldType::Normal
    }
}

} // verus!
