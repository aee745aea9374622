//! Settings read from the environment: decimal numbers, and the indices that
//! name the SPI bus, chip select and mode of the moisture sensor.

use vstd::prelude::*;
use vstd::std_specs::convert::TryFromSpec;
use vstd::string::StrSliceExecFns;

verus! {

/// Whether a character is an ASCII decimal digit.
pub open spec fn is_digit(c: char) -> bool {
    '0' <= c && c <= '9'
}

/// The value of a decimal digit.
pub open spec fn digit_value(c: char) -> int {
    c as int - '0' as int
}

/// The value of a string of decimal digits, most significant first.
pub open spec fn digits_value(s: Seq<char>) -> int
    decreases s.len(),
{
    if s.len() == 0 {
        0
    } else {
        digits_value(s.drop_last()) * 10 + digit_value(s.last())
    }
}

/// Whether every character of `s` is a decimal digit.
pub open spec fn all_digits(s: Seq<char>) -> bool {
    forall|i: int| 0 <= i < s.len() ==> #[trigger] is_digit(s[i])
}

/// The digits of a number's text: the text without one leading `+`.
pub open spec fn unsigned_digits(text: Seq<char>) -> Seq<char> {
    if text.len() > 0 && text[0] == '+' {
        text.drop_first()
    } else {
        text
    }
}

/// What `text.parse::<u64>()` gives, as its documentation describes it: an
/// optional `+` followed by one or more decimal digits, whose value fits.
pub open spec fn parse_u64(text: Seq<char>) -> Option<u64> {
    let d = unsigned_digits(text);
    if d.len() > 0 && all_digits(d) && digits_value(d) <= u64::MAX {
        Some(digits_value(d) as u64)
    } else {
        None
    }
}

/// A string of digits has at least the value of each of its prefixes.
pub proof fn lemma_digits_value_prefix(s: Seq<char>, k: int)
    requires
        0 <= k <= s.len(),
        all_digits(s),
    ensures
        digits_value(s) >= digits_value(s.take(k)),
        digits_value(s) >= 0,
    decreases s.len(),
{
    if s.len() > 0 {
        assert forall|i: int| 0 <= i < s.drop_last().len() implies #[trigger] is_digit(s.drop_last()[i]) by {
            assert(is_digit(s[i]));
        }
        assert(is_digit(s[s.len() - 1]));
        if k == s.len() {
            assert(s.take(k) == s);
            lemma_digits_value_prefix(s.drop_last(), 0);
        } else {
            lemma_digits_value_prefix(s.drop_last(), k);
            assert(s.drop_last().take(k) == s.take(k));
        }
    } else {
        assert(s.take(k) == s);
    }
}

/// Parses a decimal `u64` as `str::parse` does.
pub fn parse_decimal(text: &str) -> (r: Option<u64>)
    ensures
        r == parse_u64(text@),
{
    let n = text.unicode_len();
    let mut start: usize = 0;
    if n > 0 && text.get_char(0) == '+' {
        start = 1;
    }
    let ghost d = unsigned_digits(text@);
    assert(d == text@.subrange(start as int, n as int));
    if start >= n {
        return None;
    }
    let mut value: u64 = 0;
    let mut i: usize = start;
    while i < n
        invariant
            start <= i <= n,
            n == text@.len(),
            d == text@.subrange(start as int, n as int),
            d == unsigned_digits(text@),
            all_digits(d.take(i - start)),
            value == digits_value(d.take(i - start)),
        decreases n - i,
    {
        let c = text.get_char(i);
        proof {
            assert(d.take(i + 1 - start).drop_last() == d.take(i - start));
            assert(d.take(i + 1 - start).last() == c);
        }
        if !('0' <= c && c <= '9') {
            proof {
                assert(d[i - start] == c);
                assert(!is_digit(d[i - start]));
            }
            return None;
        }
        let digit = (c as u32 - '0' as u32) as u64;
        let next = match value.checked_mul(10) {
            Some(t) => t.checked_add(digit),
            None => None,
        };
        match next {
            Some(v) => {
                value = v;
            },
            None => {
                proof {
                    assert forall|j: int| 0 <= j < d.take(i + 1 - start).len() implies #[trigger] is_digit(
                        d.take(i + 1 - start)[j],
                    ) by {
                        if j < i - start {
                            assert(d.take(i + 1 - start)[j] == d.take(i - start)[j]);
                        }
                    }
                    if all_digits(d) {
                        lemma_digits_value_prefix(d, i + 1 - start);
                    }
                }
                return None;
            },
        }
        proof {
            assert forall|j: int| 0 <= j < d.take(i + 1 - start).len() implies #[trigger] is_digit(
                d.take(i + 1 - start)[j],
            ) by {
                if j < i - start {
                    assert(d.take(i + 1 - start)[j] == d.take(i - start)[j]);
                }
            }
        }
        i = i + 1;
    }
    assert(d.take(n - start) == d);
    Some(value)
}

/// Whether `text` is a decimal `u64` that fits into `X`.
pub open spec fn num_var_accepts<X: TryFrom<u64>>(text: Seq<char>) -> bool {
    match parse_u64(text) {
        Some(n) => <X as TryFromSpec<u64>>::try_from_spec(n) is Ok,
        None => false,
    }
}

/// Whether the setting whose text is `value` is a decimal number that fits into `X`.
pub fn is_num_var<X: TryFrom<u64>>(value: &str) -> (b: bool)
    requires
        <X as TryFromSpec<u64>>::obeys_try_from_spec(),
    ensures
        b == num_var_accepts::<X>(value@),
{
    match parse_decimal(value) {
        Some(n) => X::try_from(n).is_ok(),
        None => false,
    }
}

/// The value of the setting whose text is `value`, a decimal number that fits into `X`.
pub fn num_var<X: TryFrom<u64>>(value: &str) -> (x: X)
    requires
        <X as TryFromSpec<u64>>::obeys_try_from_spec(),
        num_var_accepts::<X>(value@),
    ensures
        <X as TryFromSpec<u64>>::try_from_spec(parse_u64(value@).unwrap()) matches Ok(y) && y == x,
{
    match parse_decimal(value) {
        Some(n) => match X::try_from(n) {
            Ok(x) => x,
            Err(_) => vstd::pervasive::unreached(),
        },
        None => vstd::pervasive::unreached(),
    }
}

/// A conversion of a setting's number into one of the values that it names.
pub trait IntoEnum<Target>: Sized {
    /// Whether the number names a value.
    spec fn castable(self) -> bool;

    /// The value that the number names.
    spec fn named(self) -> Target;

    /// The value that the number names.
    fn cast(self) -> (t: Target)
        requires
            self.castable(),
        ensures
            t == self.named(),
    ;
}

/// An SPI bus of the board.
#[derive(Debug, Clone, Copy, PartialEq, Eq)]
pub enum Bus {
    Spi0,
    Spi1,
    Spi2,
    Spi3,
    Spi4,
    Spi5,
    Spi6,
}

/// The number of values of `Bus`.
pub const BUS_COUNT: u64 = 7;

impl Bus {
    /// The number that names this value.
    pub open spec fn ordinal(self) -> int {
        match self {
            Bus::Spi0 => 0,
            Bus::Spi1 => 1,
            Bus::Spi2 => 2,
            Bus::Spi3 => 3,
            Bus::Spi4 => 4,
            Bus::Spi5 => 5,
            Bus::Spi6 => 6,
        }
    }
}

impl IntoEnum<Bus> for u64 {
    open spec fn castable(self) -> bool {
        self < BUS_COUNT
    }

    open spec fn named(self) -> Bus {
        choose|t: Bus| t.ordinal() == self
    }

    fn cast(self) -> (t: Bus) {
        let t = match self {
            0 => Bus::Spi0,
            1 => Bus::Spi1,
            2 => Bus::Spi2,
            3 => Bus::Spi3,
            4 => Bus::Spi4,
            5 => Bus::Spi5,
            _ => Bus::Spi6,
        };
        proof {
            lemma_bus_numbering(t, t);
        }
        t
    }
}

/// A chip-select line of an SPI bus.
#[derive(Debug, Clone, Copy, PartialEq, Eq)]
pub enum SlaveSelect {
    Ss0,
    Ss1,
    Ss2,
    Ss3,
    Ss4,
    Ss5,
    Ss6,
    Ss7,
    Ss8,
    Ss9,
    Ss10,
    Ss11,
    Ss12,
    Ss13,
    Ss14,
    Ss15,
}

/// The number of values of `SlaveSelect`.
pub const SLAVE_SELECT_COUNT: u64 = 16;

impl SlaveSelect {
    /// The number that names this value.
    pub open spec fn ordinal(self) -> int {
        match self {
            SlaveSelect::Ss0 => 0,
            SlaveSelect::Ss1 => 1,
            SlaveSelect::Ss2 => 2,
            SlaveSelect::Ss3 => 3,
            SlaveSelect::Ss4 => 4,
            SlaveSelect::Ss5 => 5,
            SlaveSelect::Ss6 => 6,
            SlaveSelect::Ss7 => 7,
            SlaveSelect::Ss8 => 8,
            SlaveSelect::Ss9 => 9,
            SlaveSelect::Ss10 => 10,
            SlaveSelect::Ss11 => 11,
            SlaveSelect::Ss12 => 12,
            SlaveSelect::Ss13 => 13,
            SlaveSelect::Ss14 => 14,
            SlaveSelect::Ss15 => 15,
        }
    }
}

impl IntoEnum<SlaveSelect> for u64 {
    open spec fn castable(self) -> bool {
        self < SLAVE_SELECT_COUNT
    }

    open spec fn named(self) -> SlaveSelect {
        choose|t: SlaveSelect| t.ordinal() == self
    }

    fn cast(self) -> (t: SlaveSelect) {
        let t = match self {
            0 => SlaveSelect::Ss0,
            1 => SlaveSelect::Ss1,
            2 => SlaveSelect::Ss2,
            3 => SlaveSelect::Ss3,
            4 => SlaveSelect::Ss4,
            5 => SlaveSelect::Ss5,
            6 => SlaveSelect::Ss6,
            7 => SlaveSelect::Ss7,
            8 => SlaveSelect::Ss8,
            9 => SlaveSelect::Ss9,
            10 => SlaveSelect::Ss10,
            11 => SlaveSelect::Ss11,
            12 => SlaveSelect::Ss12,
            13 => SlaveSelect::Ss13,
            14 => SlaveSelect::Ss14,
            _ => SlaveSelect::Ss15,
        };
        proof {
            lemma_slave_select_numbering(t, t);
        }
        t
    }
}

/// An SPI clock mode.
#[derive(Debug, Clone, Copy, PartialEq, Eq)]
pub enum Mode {
    Mode0,
    Mode1,
    Mode2,
    Mode3,
}

/// The number of values of `Mode`.
pub const MODE_COUNT: u64 = 4;

impl Mode {
    /// The number that names this value.
    pub open spec fn ordinal(self) -> int {
        match self {
            Mode::Mode0 => 0,
            Mode::Mode1 => 1,
            Mode::Mode2 => 2,
            Mode::Mode3 => 3,
        }
    }
}

impl IntoEnum<Mode> for u64 {
    open spec fn castable(self) -> bool {
        self < MODE_COUNT
    }

    open spec fn named(self) -> Mode {
        choose|t: Mode| t.ordinal() == self
    }

    fn cast(self) -> (t: Mode) {
        let t = match self {
            0 => Mode::Mode0,
            1 => Mode::Mode1,
            2 => Mode::Mode2,
            _ => Mode::Mode3,
        };
        proof {
            lemma_mode_numbering(t, t);
        }
        t
    }
}

proof fn lemma_bus_ordinal_injective(a: Bus, b: Bus)
    requires
        a.ordinal() == b.ordinal(),
    ensures
        a == b,
{
}

/// The values of `Bus` are numbered below `BUS_COUNT`, different values by
/// different numbers, and each value is the one that its number names.
pub proof fn lemma_bus_numbering(a: Bus, b: Bus)
    ensures
        0 <= a.ordinal() < BUS_COUNT,
        a.ordinal() == b.ordinal() ==> a == b,
        <u64 as IntoEnum<Bus>>::named(a.ordinal() as u64) == a,
{
    if a.ordinal() == b.ordinal() {
        lemma_bus_ordinal_injective(a, b);
    }
    let c = <u64 as IntoEnum<Bus>>::named(a.ordinal() as u64);
    assert(c.ordinal() == a.ordinal());
    lemma_bus_ordinal_injective(a, c);
}

proof fn lemma_slave_select_ordinal_injective(a: SlaveSelect, b: SlaveSelect)
    requires
        a.ordinal() == b.ordinal(),
    ensures
        a == b,
{
}

/// The values of `SlaveSelect` are numbered below `SLAVE_SELECT_COUNT`, different values by
/// different numbers, and each value is the one that its number names.
pub proof fn lemma_slave_select_numbering(a: SlaveSelect, b: SlaveSelect)
    ensures
        0 <= a.ordinal() < SLAVE_SELECT_COUNT,
        a.ordinal() == b.ordinal() ==> a == b,
        <u64 as IntoEnum<SlaveSelect>>::named(a.ordinal() as u64) == a,
{
    if a.ordinal() == b.ordinal() {
        lemma_slave_select_ordinal_injective(a, b);
    }
    let c = <u64 as IntoEnum<SlaveSelect>>::named(a.ordinal() as u64);
    assert(c.ordinal() == a.ordinal());
    lemma_slave_select_ordinal_injective(a, c);
}

proof fn lemma_mode_ordinal_injective(a: Mode, b: Mode)
    requires
        a.ordinal() == b.ordinal(),
    ensures
        a == b,
{
}

/// The values of `Mode` are numbered below `MODE_COUNT`, different values by
/// different numbers, and each value is the one that its number names.
pub proof fn lemma_mode_numbering(a: Mode, b: Mode)
    ensures
        0 <= a.ordinal() < MODE_COUNT,
        a.ordinal() == b.ordinal() ==> a == b,
        <u64 as IntoEnum<Mode>>::named(a.ordinal() as u64) == a,
{
    if a.ordinal() == b.ordinal() {
        lemma_mode_ordinal_injective(a, b);
    }
    let c = <u64 as IntoEnum<Mode>>::named(a.ordinal() as u64);
    assert(c.ordinal() == a.ordinal());
    lemma_mode_ordinal_injective(a, c);
}

/// Each number below 7 names the `Bus` that carries that number in its
/// name: 0 names `Spi0`, 1 names `Spi1`, and so on.
pub proof fn lemma_bus_cast_by_number()
    ensures
        <u64 as IntoEnum<Bus>>::named(0u64) == Bus::Spi0,
        <u64 as IntoEnum<Bus>>::named(1u64) == Bus::Spi1,
        <u64 as IntoEnum<Bus>>::named(2u64) == Bus::Spi2,
        <u64 as IntoEnum<Bus>>::named(3u64) == Bus::Spi3,
        <u64 as IntoEnum<Bus>>::named(4u64) == Bus::Spi4,
        <u64 as IntoEnum<Bus>>::named(5u64) == Bus::Spi5,
        <u64 as IntoEnum<Bus>>::named(6u64) == Bus::Spi6,
{
    lemma_bus_numbering(Bus::Spi0, Bus::Spi0);
    lemma_bus_numbering(Bus::Spi1, Bus::Spi1);
    lemma_bus_numbering(Bus::Spi2, Bus::Spi2);
    lemma_bus_numbering(Bus::Spi3, Bus::Spi3);
    lemma_bus_numbering(Bus::Spi4, Bus::Spi4);
    lemma_bus_numbering(Bus::Spi5, Bus::Spi5);
    lemma_bus_numbering(Bus::Spi6, Bus::Spi6);
}

/// Each number below 16 names the `SlaveSelect` that carries that number in its
/// name: 0 names `Ss0`, 1 names `Ss1`, and so on.
pub proof fn lemma_slave_select_cast_by_number()
    ensures
        <u64 as IntoEnum<SlaveSelect>>::named(0u64) == SlaveSelect::Ss0,
        <u64 as IntoEnum<SlaveSelect>>::named(1u64) == SlaveSelect::Ss1,
        <u64 as IntoEnum<SlaveSelect>>::named(2u64) == SlaveSelect::Ss2,
        <u64 as IntoEnum<SlaveSelect>>::named(3u64) == SlaveSelect::Ss3,
        <u64 as IntoEnum<SlaveSelect>>::named(4u64) == SlaveSelect::Ss4,
        <u64 as IntoEnum<SlaveSelect>>::named(5u64) == SlaveSelect::Ss5,
        <u64 as IntoEnum<SlaveSelect>>::named(6u64) == SlaveSelect::Ss6,
        <u64 as IntoEnum<SlaveSelect>>::named(7u64) == SlaveSelect::Ss7,
        <u64 as IntoEnum<SlaveSelect>>::named(8u64) == SlaveSelect::Ss8,
        <u64 as IntoEnum<SlaveSelect>>::named(9u64) == SlaveSelect::Ss9,
        <u64 as IntoEnum<SlaveSelect>>::named(10u64) == SlaveSelect::Ss10,
        <u64 as IntoEnum<SlaveSelect>>::named(11u64) == SlaveSelect::Ss11,
        <u64 as IntoEnum<SlaveSelect>>::named(12u64) == SlaveSelect::Ss12,
        <u64 as IntoEnum<SlaveSelect>>::named(13u64) == SlaveSelect::Ss13,
        <u64 as IntoEnum<SlaveSelect>>::named(14u64) == SlaveSelect::Ss14,
        <u64 as IntoEnum<SlaveSelect>>::named(15u64) == SlaveSelect::Ss15,
{
    lemma_slave_select_numbering(SlaveSelect::Ss0, SlaveSelect::Ss0);
    lemma_slave_select_numbering(SlaveSelect::Ss1, SlaveSelect::Ss1);
    lemma_slave_select_numbering(SlaveSelect::Ss2, SlaveSelect::Ss2);
    lemma_slave_select_numbering(SlaveSelect::Ss3, SlaveSelect::Ss3);
    lemma_slave_select_numbering(SlaveSelect::Ss4, SlaveSelect::Ss4);
    lemma_slave_select_numbering(SlaveSelect::Ss5, SlaveSelect::Ss5);
    lemma_slave_select_numbering(SlaveSelect::Ss6, SlaveSelect::Ss6);
    lemma_slave_select_numbering(SlaveSelect::Ss7, SlaveSelect::Ss7);
    lemma_slave_select_numbering(SlaveSelect::Ss8, SlaveSelect::Ss8);
    lemma_slave_select_numbering(SlaveSelect::Ss9, SlaveSelect::Ss9);
    lemma_slave_select_numbering(SlaveSelect::Ss10, SlaveSelect::Ss10);
    lemma_slave_select_numbering(SlaveSelect::Ss11, SlaveSelect::Ss11);
    lemma_slave_select_numbering(SlaveSelect::Ss12, SlaveSelect::Ss12);
    lemma_slave_select_numbering(SlaveSelect::Ss13, SlaveSelect::Ss13);
    lemma_slave_select_numbering(SlaveSelect::Ss14, SlaveSelect::Ss14);
    lemma_slave_select_numbering(SlaveSelect::Ss15, SlaveSelect::Ss15);
}

/// Each number below 4 names the `Mode` that carries that number in its
/// name: 0 names `Mode0`, 1 names `Mode1`, and so on.
pub proof fn lemma_mode_cast_by_number()
    ensures
        <u64 as IntoEnum<Mode>>::named(0u64) == Mode::Mode0,
        <u64 as IntoEnum<Mode>>::named(1u64) == Mode::Mode1,
        <u64 as IntoEnum<Mode>>::named(2u64) == Mode::Mode2,
        <u64 as IntoEnum<Mode>>::named(3u64) == Mode::Mode3,
{
    lemma_mode_numbering(Mode::Mode0, Mode::Mode0);
    lemma_mode_numbering(Mode::Mode1, Mode::Mode1);
    lemma_mode_numbering(Mode::Mode2, Mode::Mode2);
    lemma_mode_numbering(Mode::Mode3, Mode::Mode3);
}

} // verus!
