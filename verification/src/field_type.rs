//! The closed set of field kinds of the grid data model, with the
//! predicates that the select-cell codec dispatches on.

use vstd::prelude::*;

verus! {

/// The kind of a grid field.  Only `SingleSelect`, `MultiSelect` and
/// `ChecklistSelect` carry an option registry; the other kinds appear here
/// because the codec must recognise (and reject) them on dispatch.
#[derive(Clone, Copy, Debug, PartialEq, Eq, Structural)]
pub enum FieldType {
    RichText,
    Number,
    DateTime,
    SingleSelect,
    MultiSelect,
    ChecklistSelect,
    Checkbox,
    URL,
}

impl Default for FieldType {
    fn default() -> (r: Self)
        ensures
            r == FieldType::RichText,
    {
        FieldType::RichText
    }
}

/// The stable numeric tag of each field kind, used as its wire identifier.
pub open spec fn type_index(t: FieldType) -> u8 {
    match t {
        FieldType::RichText => 0,
        FieldType::Number => 1,
        FieldType::DateTime => 2,
        FieldType::SingleSelect => 3,
        FieldType::MultiSelect => 4,
        FieldType::ChecklistSelect => 5,
        FieldType::Checkbox => 6,
        FieldType::URL => 7,
    }
}

impl FieldType {
    /// The numeric tag rendered as a decimal string.
    pub fn type_id(&self) -> (r: String)
        ensures
            r@.len() == 1,
            r@[0] == (('0' as u8) + type_index(*self)) as char,
    {
        proof {
            reveal_strlit("0");
            reveal_strlit("1");
            reveal_strlit("2");
            reveal_strlit("3");
            reveal_strlit("4");
            reveal_strlit("5");
            reveal_strlit("6");
            reveal_strlit("7");
        }
        match self {
            FieldType::RichText => String::from_str("0"),
            FieldType::Number => String::from_str("1"),
            FieldType::DateTime => String::from_str("2"),
            FieldType::SingleSelect => String::from_str("3"),
            FieldType::MultiSelect => String::from_str("4"),
            FieldType::ChecklistSelect => String::from_str("5"),
            FieldType::Checkbox => String::from_str("6"),
            FieldType::URL => String::from_str("7"),
        }
    }

    /// The default column width, in logical pixels, for a field of this kind.
    pub fn default_cell_width(&self) -> (r: i32)
        ensures
            r == if *self == FieldType::DateTime { 180int } else { 150int },
    {
        match self {
            FieldType::DateTime => 180,
            _ => 150,
        }
    }

    pub fn is_number(&self) -> (r: bool)
        ensures
            r <==> *self == FieldType::Number,
    {
        *self == FieldType::Number
    }

    pub fn is_text(&self) -> (r: bool)
        ensures
            r <==> *self == FieldType::RichText,
    {
        *self == FieldType::RichText
    }

    pub fn is_checkbox(&self) -> (r: bool)
        ensures
            r <==> *self == FieldType::Checkbox,
    {
        *self == FieldType::Checkbox
    }

    pub fn is_date(&self) -> (r: bool)
        ensures
            r <==> *self == FieldType::DateTime,
    {
        *self == FieldType::DateTime
    }

    pub fn is_single_select(&self) -> (r: bool)
        ensures
            r <==> *self == FieldType::SingleSelect,
    {
        *self == FieldType::SingleSelect
    }

    pub fn is_multi_select(&self) -> (r: bool)
        ensures
            r <==> *self == FieldType::MultiSelect,
    {
        *self == FieldType::MultiSelect
    }

    pub fn is_url(&self) -> (r: bool)
        ensures
            r <==> *self == FieldType::URL,
    {
        *self == FieldType::URL
    }

    /// Whether this kind is one of the two classic selection kinds.
    /// `ChecklistSelect` is deliberately not included: it has its own
    /// predicate, `is_checklist_select`.
    pub fn is_select_option(&self) -> (r: bool)
        ensures
            r <==> (*self == FieldType::MultiSelect || *self == FieldType::SingleSelect),
    {
        *self == FieldType::MultiSelect || *self == FieldType::SingleSelect
    }

    pub fn is_checklist_select(&self) -> (r: bool)
        ensures
            r <==> *self == FieldType::ChecklistSelect,
    {
        *self == FieldType::ChecklistSelect
    }
}

} // verus!
