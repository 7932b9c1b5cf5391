//! Padding a value to a width inside a template (the `pad` helper).
use crate::css_class::push_char;
use crate::text::{chars_of, str_eq};
use vstd::prelude::*;

verus! {

/// Why a value could not be padded.
#[derive(Debug, Clone, Copy, PartialEq, Eq, Structural)]
pub enum PadError {
    /// The padding character is not exactly one character.
    PadCharNotSingle,
    /// The direction is neither `left` nor `right`.
    InvalidDirection,
}

/// `input` followed by `pad` as often as it takes to reach `width` characters, with every
/// space of the result (those of `input` too) turned into `pad`.
pub open spec fn padded(input: Seq<char>, width: nat, pad: char) -> Seq<char> {
    input.map_values(|c: char| if c == ' ' { pad } else { c }) + Seq::new(
        if input.len() < width { (width - input.len()) as nat } else { 0 },
        |i: int| pad,
    )
}

/// What padding gives: the padding character must be a single character, the
/// direction `left` or `right`; both directions pad `input` on its right.
pub open spec fn pad_result(direction: Seq<char>, input: Seq<char>, width: nat, pad_char: Seq<char>) -> Result<Seq<char>, PadError> {
    if pad_char.len() != 1 {
        Err(PadError::PadCharNotSingle)
    } else if direction != "left"@ && direction != "right"@ {
        Err(PadError::InvalidDirection)
    } else {
        Ok(padded(input, width, pad_char[0]))
    }
}

/// Pads `input` to `total_length` characters with `pad_char`.
pub fn pad_string(direction: &str, input: &str, total_length: u64, pad_char: &str) -> (r: Result<String, PadError>)
    ensures
        match pad_result(direction@, input@, total_length as nat, pad_char@) {
            Ok(s) => r matches Ok(out) && out@ == s,
            Err(e) => r == Err::<String, PadError>(e),
        },
{
    let pad_chars = chars_of(pad_char);
    if pad_chars.len() != 1 {
        return Err(PadError::PadCharNotSingle);
    }
    if !str_eq(direction, "left") && !str_eq(direction, "right") {
        return Err(PadError::InvalidDirection);
    }
    let pad = pad_chars[0];
    let chars = chars_of(input);
    let ghost mapped = input@.map_values(|c: char| if c == ' ' { pad } else { c });
    let mut out = String::new();
    let mut i: usize = 0;
    while i < chars.len()
        invariant
            chars@ == input@,
            0 <= i <= chars.len(),
            mapped == input@.map_values(|c: char| if c == ' ' { pad } else { c }),
            out@ == mapped.take(i as int),
        decreases chars.len() - i,
    {
        let c = chars[i];
        if c == ' ' {
            push_char(&mut out, pad);
        } else {
            push_char(&mut out, c);
        }
        assert(mapped.take(i + 1) =~= mapped.take(i as int).push(mapped[i as int]));
        i = i + 1;
    }
    assert(mapped.take(chars.len() as int) =~= mapped);
    let len = chars.len() as u64;
    let ghost fill = Seq::new(
        if (input@.len() as nat) < (total_length as nat) { (total_length - input@.len()) as nat } else { 0 },
        |k: int| pad,
    );
    let mut n: u64 = len;
    while n < total_length
        invariant
            len == input@.len(),
            len <= n,
            n <= total_length || n == len,
            out@ == mapped + fill.take(n - len),
            fill == Seq::new(
                if (input@.len() as nat) < (total_length as nat) {
                    (total_length - input@.len()) as nat
                } else {
                    0
                },
                |k: int| pad,
            ),
        decreases total_length - n,
    {
        push_char(&mut out, pad);
        assert(fill.take(n + 1 - len) =~= fill.take(n - len).push(pad));
        n = n + 1;
    }
    assert(fill.take(n - len) =~= fill);
    Ok(out)
}

/// Padding fails exactly when the padding character is not one character, or the
/// direction is neither `left` nor `right`; otherwise the result is at least `width` long,
/// keeps each character of `input` in place with spaces turned into the padding character,
/// and fills the rest with the padding character.
pub proof fn law_pad(direction: Seq<char>, input: Seq<char>, width: nat, pad_char: Seq<char>)
    ensures
        pad_char.len() != 1 ==> pad_result(direction, input, width, pad_char) == Err::<Seq<char>, PadError>(
            PadError::PadCharNotSingle,
        ),
        pad_char.len() == 1 && direction != "left"@ && direction != "right"@ ==> pad_result(
            direction,
            input,
            width,
            pad_char,
        ) == Err::<Seq<char>, PadError>(PadError::InvalidDirection),
        pad_char.len() == 1 && (direction == "left"@ || direction == "right"@) ==> (pad_result(
            direction,
            input,
            width,
            pad_char,
        ) matches Ok(out) && out.len() == (if input.len() < width { width } else { input.len() }) && (
        forall|i: int|
            0 <= i < input.len() ==> #[trigger] out[i] == (if input[i] == ' ' {
                pad_char[0]
            } else {
                input[i]
            })) && (forall|i: int| input.len() <= i < out.len() ==> #[trigger] out[i] == pad_char[0])),
{
}

} // verus!

