//! The shape of an inbound interaction, as the handlers read it.
//!
//! A modal submission arrives as an ordered sequence of action rows, each
//! holding an ordered sequence of components; the handlers address fields
//! positionally (row index, then field index within the row). A slash-command
//! invocation arrives with a list of named options, each optionally carrying
//! a string value and a list of sub-options. Both carry the invoking member's
//! role set, absent when the interaction did not originate from a guild
//! member.

use vstd::prelude::*;

verus! {

/// One component of an action row. Only single-line and multi-line text
/// inputs carry data the handlers read; anything else is out of shape.
pub enum ActionRowComponent {
    /// A text input, with the value the user submitted.
    InputText(String),
    /// Any component that is not a text input.
    Unsupported,
}

/// One row of a submitted modal form.
pub struct ActionRow {
    pub components: Vec<ActionRowComponent>,
}

/// A submitted modal form: the submitting member's role identifiers (absent
/// outside a guild-member context) and the rows of the form.
pub struct ModalSubmission {
    pub member_roles: Option<Vec<u64>>,
    pub rows: Vec<ActionRow>,
}

/// A sub-option of a slash-command option, carrying a string value if the
/// user supplied one of string shape.
pub struct SubOption {
    pub value: Option<String>,
}

/// One option of a slash-command invocation: for the commands here, the name
/// selects a subcommand and the sub-options carry its arguments in order.
pub struct CommandOption {
    pub name: String,
    pub options: Vec<SubOption>,
}

/// The text at coordinate (`row`, `field`) of a submitted form, or `None`
/// when the row or field is absent or the component there is not a text
/// input.
pub open spec fn text_at(rows: Seq<ActionRow>, row: int, field: int) -> Option<Seq<char>> {
    if 0 <= row < rows.len() && 0 <= field < rows[row].components@.len() {
        match rows[row].components@[field] {
            ActionRowComponent::InputText(s) => Some(s@),
            ActionRowComponent::Unsupported => None,
        }
    } else {
        None
    }
}

/// Extracts the text field at (`row`, `field`), with explicit bounds and
/// component-type checks: exactly the fields `text_at` accounts for are
/// returned, and nothing is guessed for an out-of-shape form.
pub fn text_field(rows: &Vec<ActionRow>, row: usize, field: usize) -> (r: Option<&String>)
    ensures
        match r {
            Some(s) => text_at(rows@, row as int, field as int) == Some(s@),
            None => text_at(rows@, row as int, field as int) is None,
        },
{
    if row < rows.len() {
        let components = &rows[row].components;
        if field < components.len() {
            match &components[field] {
                ActionRowComponent::InputText(s) => Some(s),
                ActionRowComponent::Unsupported => None,
            }
        } else {
            None
        }
    } else {
        None
    }
}

/// The string value of sub-option `field` of option `row`, or `None` when
/// the option or sub-option is absent or carries no string value.
pub open spec fn option_value_at(options: Seq<CommandOption>, row: int, field: int) -> Option<
    Seq<char>,
> {
    if 0 <= row < options.len() && 0 <= field < options[row].options@.len() {
        match options[row].options@[field].value {
            Some(s) => Some(s@),
            None => None,
        }
    } else {
        None
    }
}

/// Extracts the string value of sub-option `field` of option `row`, with
/// explicit bounds checks mirroring `option_value_at`.
pub fn option_value(options: &Vec<CommandOption>, row: usize, field: usize) -> (r: Option<
    &String,
>)
    ensures
        match r {
            Some(s) => option_value_at(options@, row as int, field as int) == Some(s@),
            None => option_value_at(options@, row as int, field as int) is None,
        },
{
    if row < options.len() {
        let subs = &options[row].options;
        if field < subs.len() {
            match &subs[field].value {
                Some(s) => Some(s),
                None => None,
            }
        } else {
            None
        }
    } else {
        None
    }
}

} // verus!
