//! One selectable choice of a select-type field: stable id, display name,
//! and one of nine fixed colors.

use vstd::prelude::*;
use crate::ids::comma_free;

verus! {

/// The fixed palette.  New options are colored by their creation index
/// through `select_option_color_from_index`, which cycles modulo 8 over
/// the first eight entries; `Blue` is reserved and never assigned through
/// that path (a caller may still pick it explicitly).
#[derive(Clone, Copy, Debug, PartialEq, Eq, Structural)]
pub enum SelectOptionColor {
    Purple,
    Pink,
    LightPink,
    Orange,
    Yellow,
    Lime,
    Green,
    Aqua,
    Blue,
}

impl Default for SelectOptionColor {
    fn default() -> (r: Self)
        ensures
            r == SelectOptionColor::Purple,
    {
        SelectOptionColor::Purple
    }
}

/// The color assigned to the option created when the registry already
/// holds `index` options: the palette entry at `index mod 8`.
pub open spec fn color_of_index(index: int) -> SelectOptionColor {
    let i = index % 8;
    if i == 0 {
        SelectOptionColor::Purple
    } else if i == 1 {
        SelectOptionColor::Pink
    } else if i == 2 {
        SelectOptionColor::LightPink
    } else if i == 3 {
        SelectOptionColor::Orange
    } else if i == 4 {
        SelectOptionColor::Yellow
    } else if i == 5 {
        SelectOptionColor::Lime
    } else if i == 6 {
        SelectOptionColor::Green
    } else {
        SelectOptionColor::Aqua
    }
}

/// The deterministic default color for the option at a given registry
/// position.
pub fn select_option_color_from_index(index: usize) -> (r: SelectOptionColor)
    ensures
        r == color_of_index(index as int),
{
    match index % 8 {
        0 => SelectOptionColor::Purple,
        1 => SelectOptionColor::Pink,
        2 => SelectOptionColor::LightPink,
        3 => SelectOptionColor::Orange,
        4 => SelectOptionColor::Yellow,
        5 => SelectOptionColor::Lime,
        6 => SelectOptionColor::Green,
        7 => SelectOptionColor::Aqua,
        _ => SelectOptionColor::Purple,
    }
}

/// One option of a select-type field.  The id is generator-assigned and
/// stable; the name is what the user sees; options are matched by id (and,
/// on registry insert, also by name).
#[derive(Debug, PartialEq, Eq)]
pub struct SelectOption {
    pub id: String,
    pub name: String,
    pub color: SelectOptionColor,
}

/// The mathematical image of a `SelectOption`: both strings as character
/// sequences.
pub struct SelectOptionData {
    pub id: Seq<char>,
    pub name: Seq<char>,
    pub color: SelectOptionColor,
}

impl View for SelectOption {
    type V = SelectOptionData;

    open spec fn view(&self) -> SelectOptionData {
        SelectOptionData { id: self.id@, name: self.name@, color: self.color }
    }
}

impl DeepView for SelectOption {
    type V = SelectOptionData;

    open spec fn deep_view(&self) -> SelectOptionData {
        self@
    }
}

impl Clone for SelectOption {
    fn clone(&self) -> (r: Self)
        ensures
            r == *self,
    {
        SelectOption { id: self.id.clone(), name: self.name.clone(), color: self.color }
    }
}

/// Relies on `nanoid::format` with `nanoid::rngs::default` and the
/// url-safe alphabet `nanoid::alphabet::SAFE`: returns a fresh random id
/// of exactly 4 characters, each drawn from that 64-entry ASCII alphabet,
/// which does not contain the comma delimiter.  Nothing else can be
/// promised of a random id.
#[verifier::external_body]
fn gen_option_id() -> (r: String)
    ensures
        r@.len() == 4,
        comma_free(r@),
{
    nanoid::format(nanoid::rngs::default, &nanoid::alphabet::SAFE, 4)
}

/// A fresh vector holding the same options, element for element.
pub fn clone_select_options(options: &Vec<SelectOption>) -> (r: Vec<SelectOption>)
    ensures
        r@ == options@,
{
    let mut r: Vec<SelectOption> = Vec::new();
    let mut i: usize = 0;
    while i < options.len()
        invariant
            i <= options.len(),
            r@ == options@.subrange(0, i as int),
        decreases options.len() - i,
    {
        r.push(options[i].clone());
        proof {
            assert(r@ =~= options@.subrange(0, i as int + 1));
        }
        i = i + 1;
    }
    proof {
        assert(options@.subrange(0, options.len() as int) =~= options@);
    }
    r
}

impl SelectOption {
    /// A fresh option with a generated id and the default color.
    pub fn new(name: &str) -> (r: SelectOption)
        ensures
            r@.name == name@,
            r@.color == SelectOptionColor::Purple,
            r@.id.len() == 4,
            comma_free(r@.id),
    {
        SelectOption {
            id: gen_option_id(),
            name: String::from_str(name),
            color: SelectOptionColor::default(),
        }
    }

    /// A fresh option with a generated id and a caller-chosen color.
    pub fn with_color(name: &str, color: SelectOptionColor) -> (r: SelectOption)
        ensures
            r@.name == name@,
            r@.color == color,
            r@.id.len() == 4,
            comma_free(r@.id),
    {
        SelectOption { id: gen_option_id(), name: String::from_str(name), color }
    }
}

} // verus!
