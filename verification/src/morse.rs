//! Blinking messages in Morse code on the status lights.
//! A message is translated to Morse text by the `dothyphen` crate, a word
//! separator is appended, and each symbol of the text becomes one signal.

use vstd::prelude::*;

use crate::gpio::Led;
use vstd::string::StringExecFns;

verus! {

/// The length of a short flash, and of the gap after each flash, in milliseconds.
pub const SMALL: u64 = 50;

/// The length of a long flash, in milliseconds.
pub const LARGE: u64 = 150;

/// A symbol of Morse text.
#[derive(Debug, Clone, Copy, PartialEq, Eq)]
pub enum MorseCode {
    DOT,
    HYPHEN,
    SLASH,
}

impl MorseCode {
    /// The symbol that `char` writes, if it writes one.
    pub fn new(char: char) -> (r: Option<MorseCode>)
        ensures
            r == code_of(char),
    {
        match char {
            '.' => Some(MorseCode::DOT),
            '-' => Some(MorseCode::HYPHEN),
            '/' => Some(MorseCode::SLASH),
            _ => None,
        }
    }

    /// The light that shows the symbol: green for a word separator, red otherwise.
    pub fn led(&self) -> (l: Led)
        ensures
            l == (match self {
                MorseCode::SLASH => Led::Green,
                _ => Led::Red,
            }),
    {
        match self {
            MorseCode::SLASH => Led::Green,
            _ => Led::Red,
        }
    }

    /// How long the light stays on for the symbol, in milliseconds: short for a
    /// dot, long otherwise.
    pub fn duration(&self) -> (d: u64)
        ensures
            d == (match self {
                MorseCode::DOT => SMALL,
                _ => LARGE,
            }),
    {
        match self {
            MorseCode::DOT => SMALL,
            MorseCode::HYPHEN | MorseCode::SLASH => LARGE,
        }
    }
}

/// The symbol that a character writes.
pub open spec fn code_of(c: char) -> Option<MorseCode> {
    if c == '.' {
        Some(MorseCode::DOT)
    } else if c == '-' {
        Some(MorseCode::HYPHEN)
    } else if c == '/' {
        Some(MorseCode::SLASH)
    } else {
        None
    }
}

/// One step of blinking a message.
#[derive(Debug, Clone, Copy, PartialEq, Eq)]
pub enum MorseSignal {
    /// Wait `SMALL` milliseconds with the lights off (a space of the text).
    Pause,
    /// Light `code.led()` for `code.duration()` milliseconds, then wait `SMALL`.
    Flash(MorseCode),
}

/// The signals of one character: a pause for a space, a flash for a symbol,
/// nothing for anything else.
pub open spec fn signals_of_char(c: char) -> Seq<MorseSignal> {
    if c == ' ' {
        seq![MorseSignal::Pause]
    } else {
        match code_of(c) {
            Some(code) => seq![MorseSignal::Flash(code)],
            None => Seq::empty(),
        }
    }
}

/// The signals of a text, character by character.
pub open spec fn signals_of(text: Seq<char>) -> Seq<MorseSignal>
    decreases text.len(),
{
    if text.len() == 0 {
        Seq::empty()
    } else {
        signals_of(text.drop_last()) + signals_of_char(text.last())
    }
}

/// The signals of a Morse text.
pub fn morse_signals(morse: &str) -> (r: Vec<MorseSignal>)
    ensures
        r@ == signals_of(morse@),
{
    let mut r: Vec<MorseSignal> = Vec::new();
    for c in iter: morse.chars()
        invariant
            iter.seq() == morse@,
            r@ == signals_of(iter.seq().take(iter.index() as int)),
    {
        assert(iter.seq().take(iter.index() + 1).drop_last() == iter.seq().take(iter.index() as int));
        if c == ' ' {
            r.push(MorseSignal::Pause);
        } else {
            match MorseCode::new(c) {
                Some(code) => r.push(MorseSignal::Flash(code)),
                None => {},
            }
        }
    }
    assert(morse@.take(morse@.len() as int) == morse@);
    r
}

/// Whether every character of a text is a Morse symbol or a space.
pub open spec fn is_morse_text(text: Seq<char>) -> bool {
    forall|i: int| 0 <= i < text.len() ==> #[trigger] is_morse_char(text[i])
}

/// Whether a character is a Morse symbol or a space.
pub open spec fn is_morse_char(c: char) -> bool {
    c == '.' || c == '-' || c == '/' || c == ' '
}

/// The Morse text that `dothyphen::translate::to_morse` writes for an input.
pub uninterp spec fn ascii_to_morse(input: Seq<char>) -> Seq<char>;

/// Calls `dothyphen::translate::to_morse`. Claimed: the result is
/// `ascii_to_morse` of the input, and, as the crate's table shows, it holds
/// only dots, hyphens, slashes and spaces.
#[verifier::external_body]
fn to_morse(input: &str) -> (r: String)
    ensures
        r@ == ascii_to_morse(input@),
        is_morse_text(r@),
{
    dothyphen::translate::to_morse(input)
}

/// The word separator, then a character that writes no symbol, appended to
/// every translated message.
pub open spec fn message_end() -> Seq<char> {
    seq!['/', 'n']
}

/// The signals that blink `message`: those of its Morse text with the
/// separator appended.
pub fn morse_plan(message: &str) -> (r: Vec<MorseSignal>)
    ensures
        r@ == signals_of(ascii_to_morse(message@) + message_end()),
        r@.len() == ascii_to_morse(message@).len() + 1,
        r@.last() == MorseSignal::Flash(MorseCode::SLASH),
{
    let text = to_morse(message).concat("/n");
    proof {
        reveal_strlit("/n");
        assert("/n"@ == message_end());
        lemma_plan_ends_with_separator(message@);
    }
    morse_signals(text.as_str())
}

/// The signals of two texts one after the other are those of the first, then
/// those of the second.
pub proof fn lemma_signals_of_concat(a: Seq<char>, b: Seq<char>)
    ensures
        signals_of(a + b) == signals_of(a) + signals_of(b),
    decreases b.len(),
{
    if b.len() == 0 {
        assert(a + b == a);
    } else {
        lemma_signals_of_concat(a, b.drop_last());
        assert((a + b).drop_last() == a + b.drop_last());
        assert((a + b).last() == b.last());
    }
}

/// A text of Morse symbols and spaces gives exactly one signal per character.
pub proof fn lemma_morse_text_one_signal_each(text: Seq<char>)
    requires
        is_morse_text(text),
    ensures
        signals_of(text).len() == text.len(),
    decreases text.len(),
{
    if text.len() > 0 {
        assert(is_morse_char(text.drop_last().last()) || text.drop_last().len() == 0);
        assert forall|i: int| 0 <= i < text.drop_last().len() implies #[trigger] is_morse_char(text.drop_last()[i]) by {
            assert(is_morse_char(text[i]));
        }
        lemma_morse_text_one_signal_each(text.drop_last());
        assert(is_morse_char(text[text.len() - 1]));
    }
}

/// Every message is blinked as one signal per character of its Morse text,
/// then one green word separator: the plan ends with a `SLASH` flash.
pub proof fn lemma_plan_ends_with_separator(message: Seq<char>)
    requires
        is_morse_text(ascii_to_morse(message)),
    ensures
        signals_of(ascii_to_morse(message) + message_end()).len() == ascii_to_morse(message).len() + 1,
        signals_of(ascii_to_morse(message) + message_end()).last() == MorseSignal::Flash(MorseCode::SLASH),
{
    let text = ascii_to_morse(message);
    lemma_signals_of_concat(text, message_end());
    lemma_morse_text_one_signal_each(text);
    assert(message_end().drop_last() == seq!['/']);
    assert(seq!['/'].drop_last() == Seq::<char>::empty());
    assert(signals_of(seq!['/']) == signals_of(Seq::<char>::empty()) + signals_of_char('/'));
    assert(signals_of(message_end()) == seq![MorseSignal::Flash(MorseCode::SLASH)]);
}

} // verus!
