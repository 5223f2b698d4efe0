//! One cell of a `grid_line` event: a grapheme, its highlight and how many
//! times it repeats.

use vstd::prelude::*;
use crate::errors::BridgeErrors;
use crate::value::Value;

verus! {

/// The model of a character: its text, its highlight id and its repeat count.
pub type CharView = (Seq<char>, i64, i64);

/// A single character cell given by the Neovim API.
#[derive(Debug, PartialEq)]
pub struct Character {
    // A string rather than a `char`: a cell holds a grapheme, which may be
    // made of several unicode scalars.
    utf8_char: String,
    pub highlight_id: i64,
    repeat: i64,
}

impl View for Character {
    type V = CharView;

    closed spec fn view(&self) -> CharView {
        (self.utf8_char@, self.highlight_id, self.repeat)
    }
}

/// The integer at index `i` of `arr`, or `default` where there is no element
/// there or it is not an `i64`.
pub open spec fn i64_at_or(arr: Seq<Value>, i: int, default: i64) -> i64 {
    if 0 <= i < arr.len() {
        match arr[i].i64_view() {
            Some(n) => n,
            None => default,
        }
    } else {
        default
    }
}

/// Whether `arr` holds an `i64` at index `i`.
pub open spec fn has_i64_at(arr: Seq<Value>, i: int) -> bool {
    0 <= i < arr.len() && arr[i].i64_view() is Some
}

/// A character read from `[text, highlight?, repeat?]`, where a missing
/// highlight is `highlight_id` and a missing repeat count is 1.
pub open spec fn spec_from_val_highlight(value: Value, highlight_id: i64) -> Result<CharView, BridgeErrors> {
    match value.array_view() {
        Some(arr) => if arr.len() > 0 && arr[0].str_view() is Some {
            Ok((arr[0].str_view().unwrap(), i64_at_or(arr, 1, highlight_id), i64_at_or(arr, 2, 1)))
        } else {
            Err(BridgeErrors::ConversionError)
        },
        None => Err(BridgeErrors::ConversionError),
    }
}

/// A character read from `[text, highlight, repeat?]`: here the highlight
/// must be present.
pub open spec fn spec_character(value: Value) -> Result<CharView, BridgeErrors> {
    match value.array_view() {
        Some(arr) => if has_i64_at(arr, 1) {
            spec_from_val_highlight(value, arr[1].i64_view().unwrap())
        } else {
            Err(BridgeErrors::ConversionError)
        },
        None => Err(BridgeErrors::ConversionError),
    }
}

/// A value that carries its own highlight id reads the same whatever
/// highlight id is offered in its place, and reads as a first character.
pub proof fn lemma_own_highlight_wins(value: Value, h1: i64, h2: i64)
    requires
        value.array_view() matches Some(arr) && has_i64_at(arr, 1),
    ensures
        spec_from_val_highlight(value, h1) == spec_from_val_highlight(value, h2),
        spec_character(value) == spec_from_val_highlight(value, h1),
{
}

/// A first character reads only where its value carries a highlight id.
pub proof fn lemma_first_needs_highlight(value: Value)
    ensures
        spec_character(value) is Ok <==> (value.array_view() matches Some(arr) && has_i64_at(arr, 1)
            && spec_from_val_highlight(value, arr[1].i64_view().unwrap()) is Ok),
{
}

/// A character read without a repeat count repeats once, and one read
/// without a highlight id has the one offered.
pub proof fn lemma_defaults(value: Value, highlight_id: i64)
    requires
        spec_from_val_highlight(value, highlight_id) is Ok,
    ensures
        value.array_view() matches Some(arr) && {
            &&& !has_i64_at(arr, 2) ==> spec_from_val_highlight(value, highlight_id).unwrap().2 == 1
            &&& !has_i64_at(arr, 1) ==> spec_from_val_highlight(value, highlight_id).unwrap().1
                == highlight_id
        },
{
}

/// A character value reads exactly when it is an array whose first element
/// is a UTF-8 string. The text is that string; the highlight id is element 1
/// where that is an `i64`, and the one offered otherwise; the repeat count
/// is element 2 where that is an `i64`, and 1 otherwise.
pub proof fn lemma_character_fields(value: Value, highlight_id: i64)
    ensures
        spec_from_val_highlight(value, highlight_id) is Ok <==> (value.array_view() matches Some(arr)
            && arr.len() > 0 && arr[0].str_view() is Some),
        spec_from_val_highlight(value, highlight_id) matches Ok(c) ==> ({
            let arr = value.array_view().unwrap();
            &&& Some(c.0) == arr[0].str_view()
            &&& (arr.len() > 1 && arr[1].i64_view() is Some) ==> Some(c.1) == arr[1].i64_view()
            &&& !(arr.len() > 1 && arr[1].i64_view() is Some) ==> c.1 == highlight_id
            &&& (arr.len() > 2 && arr[2].i64_view() is Some) ==> Some(c.2) == arr[2].i64_view()
            &&& !(arr.len() > 2 && arr[2].i64_view() is Some) ==> c.2 == 1
        }),
{
}

/// The model of a parse result.
pub open spec fn char_result_view(r: Result<Character, BridgeErrors>) -> Result<CharView, BridgeErrors> {
    match r {
        Ok(c) => Ok(c@),
        Err(e) => Err(e),
    }
}

impl Character {
    pub fn new(utf8_char: String, highlight_id: i64, repeat: i64) -> (r: Self)
        ensures
            r@ == (utf8_char@, highlight_id, repeat),
    {
        Self { utf8_char, highlight_id, repeat }
    }

    /// The highlight id of this character.
    pub fn highlight(&self) -> (h: i64)
        ensures
            h == self@.1,
    {
        self.highlight_id
    }

    /// Reads a character whose value must carry its own highlight id.
    pub fn try_from(value: &Value) -> (r: Result<Character, BridgeErrors>)
        ensures
            char_result_view(r) == spec_character(*value),
    {
        let arr = match value.as_array() {
            Some(arr) => arr,
            None => return Err(BridgeErrors::ConversionError),
        };
        let highlight_id = if arr.len() > 1 {
            match arr[1].as_i64() {
                Some(h) => h,
                None => return Err(BridgeErrors::ConversionError),
            }
        } else {
            return Err(BridgeErrors::ConversionError);
        };
        Self::from_val_highlight(value, highlight_id)
    }

    /// Reads the character that `value` represents. The highlight id is
    /// taken from the value where it holds one, and is `highlight_id`
    /// otherwise; the repeat count is 1 where the value holds none.
    pub fn from_val_highlight(value: &Value, highlight_id: i64) -> (r: Result<Character, BridgeErrors>)
        ensures
            char_result_view(r) == spec_from_val_highlight(*value, highlight_id),
    {
        let arr = match value.as_array() {
            Some(arr) => arr,
            None => return Err(BridgeErrors::ConversionError),
        };
        if arr.len() == 0 {
            return Err(BridgeErrors::ConversionError);
        }
        let text = match arr[0].as_str() {
            Some(s) => s,
            None => return Err(BridgeErrors::ConversionError),
        };
        let utf8_char = String::from_str(text);
        let highlight_id = if arr.len() > 1 {
            match arr[1].as_i64() {
                Some(h) => h,
                None => highlight_id,
            }
        } else {
            highlight_id
        };
        let repeat = if arr.len() > 2 {
            match arr[2].as_i64() {
                Some(n) => n,
                None => 1,
            }
        } else {
            1
        };
        Ok(Self { utf8_char, highlight_id, repeat })
    }
}

} // verus!
