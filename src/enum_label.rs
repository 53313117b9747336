//! Label validation for enumerations that are stored as text columns.
//!
//! Schema validation only requires such a column to hold text; testing
//! each value against the enumeration's labels is a separate step that the
//! caller takes through this trait.

use vstd::prelude::*;

use crate::validate::ValidationError;

verus! {

/// An enumeration stored as its text labels.
pub trait ValidatableEnum: Sized {
    /// The valid labels, in order. An implementation that is verified gives
    /// its own; this default stands for an implementation made outside
    /// verification, whose contracts nothing checks.
    open spec fn spec_valid_values() -> Seq<Seq<char>> {
        Seq::empty()
    }

    /// The label of a variant; see `spec_valid_values` for the default.
    open spec fn spec_label(&self) -> Seq<char> {
        Seq::empty()
    }

    /// Every valid label, in order.
    fn valid_values() -> (r: Vec<&'static str>)
        ensures
            r@.map_values(|s: &str| s@) == Self::spec_valid_values(),
    ;

    /// Whether `value` is one of the valid labels (case-sensitive).
    fn is_valid(value: &str) -> (r: bool)
        ensures
            r == Self::spec_valid_values().contains(value@),
    {
        let labels = Self::valid_values();
        crate::text::contains_text(&labels, value)
    }

    /// The variant labelled `value`, or `InvalidEnumValue` when `value` is
    /// none of the valid labels.
    fn from_str(value: &str) -> (r: Result<Self, ValidationError>)
        ensures
            r is Ok <==> Self::spec_valid_values().contains(value@),
            r matches Ok(v) ==> v.spec_label() == value@,
            r matches Err(e) ==> e is InvalidEnumValue,
    ;

    /// The label of this variant, one of the valid labels.
    fn to_str(&self) -> (r: &'static str)
        ensures
            r@ == self.spec_label(),
            Self::spec_valid_values().contains(r@),
    ;
}

/// The error for a label `value` of field `field` that is none of `labels`.
pub fn invalid_enum_value(field: &str, value: &str, labels: &Vec<&str>) -> (r: ValidationError)
    ensures
        r@ == (crate::validate::ValidationErrorModel::InvalidEnumValue {
            field: field@,
            value: value@,
            valid_values: labels@.map_values(|s: &str| s@),
        }),
{
    ValidationError::InvalidEnumValue {
        field: String::from_str(field),
        value: String::from_str(value),
        valid_values: crate::validate::owned_names(labels),
    }
}

} // verus!
