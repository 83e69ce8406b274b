use vstd::prelude::*;

verus! {

/// The ASCII code of the digit `0`.
pub const ASCII_ZERO: u8 = 48;

/// Output level of a GPIO pin.
#[derive(Clone, Copy, Debug, PartialEq, Eq, Structural)]
pub enum Level {
    Low,
    High,
}

/// The levels of the board's three LED pins.
///
/// The LEDs are wired active-low: a pin driven `Low` lights its LED.
#[derive(Clone, Copy, Debug, PartialEq, Eq, Structural)]
pub struct LedLevels {
    pub red: Level,
    pub green: Level,
    pub blue: Level,
}

/// Which of the three LEDs is currently shown.
#[derive(Clone, Copy, Debug, PartialEq, Eq, Structural)]
pub enum LightState {
    Red,
    Green,
    Blue,
}

/// The pin level that lights an LED (`Low`) or keeps it dark (`High`).
pub open spec fn lit_level(lit: bool) -> Level {
    if lit {
        Level::Low
    } else {
        Level::High
    }
}

impl LightState {
    /// The light that follows `self`: red, green, blue, then red again.
    pub open spec fn spec_next(self) -> LightState {
        match self {
            LightState::Red => LightState::Green,
            LightState::Green => LightState::Blue,
            LightState::Blue => LightState::Red,
        }
    }

    /// The light's position in the cycle: red 0, green 1, blue 2.
    pub open spec fn index(self) -> nat {
        match self {
            LightState::Red => 0,
            LightState::Green => 1,
            LightState::Blue => 2,
        }
    }

    /// The pin levels that show exactly this light.
    pub open spec fn spec_led_levels(self) -> LedLevels {
        LedLevels {
            red: lit_level(self == LightState::Red),
            green: lit_level(self == LightState::Green),
            blue: lit_level(self == LightState::Blue),
        }
    }

    /// The ASCII digit that names the light in a report: `'0'` plus its index.
    pub open spec fn spec_digit(self) -> u8 {
        (ASCII_ZERO + self.index()) as u8
    }

    /// Advances the light cycle by one step.
    pub fn next(self) -> (n: LightState)
        ensures
            n == self.spec_next(),
    {
        match self {
            LightState::Red => LightState::Green,
            LightState::Green => LightState::Blue,
            LightState::Blue => LightState::Red,
        }
    }

    /// The LED pin levels that show this light and keep the other two dark.
    pub fn led_levels(self) -> (levels: LedLevels)
        ensures
            levels == self.spec_led_levels(),
    {
        match self {
            LightState::Red => LedLevels { red: Level::Low, green: Level::High, blue: Level::High },
            LightState::Green => LedLevels { red: Level::High, green: Level::Low, blue: Level::High },
            LightState::Blue => LedLevels { red: Level::High, green: Level::High, blue: Level::Low },
        }
    }

    /// The ASCII digit that names this light (`'0'` plus its index).
    pub fn digit(self) -> (d: u8)
        ensures
            d == self.spec_digit(),
    {
        match self {
            LightState::Red => ASCII_ZERO,
            LightState::Green => ASCII_ZERO + 1,
            LightState::Blue => ASCII_ZERO + 2,
        }
    }
}

/// The LED pin levels when the firmware configures the pins as outputs: all
/// driven low, so all three LEDs are lit until the first frame.
pub fn power_on_levels() -> (levels: LedLevels)
    ensures
        levels == (LedLevels { red: Level::Low, green: Level::Low, blue: Level::Low }),
{
    LedLevels { red: Level::Low, green: Level::Low, blue: Level::Low }
}

/// The bytes of the text written before the light's digit in a switch report.
pub open spec fn switch_report_prefix() -> Seq<u8> {
    seq![
        // "Switched light to " in ASCII
        83u8, 119, 105, 116, 99, 104, 101, 100, 32, 108, 105, 103, 104, 116, 32, 116, 111, 32,
    ]
}

/// The bytes written after the light's digit in a switch report: a CR LF line end.
pub open spec fn switch_report_suffix() -> Seq<u8> {
    seq![13u8, 10]
}

/// The whole report line announcing that `light` is now shown.
pub open spec fn switch_report_line(light: LightState) -> Seq<u8> {
    switch_report_prefix() + seq![light.spec_digit()] + switch_report_suffix()
}

/// The three pieces of the switch report, in the order they are written to the
/// serial port: the fixed prefix, the light's digit, and the line end.
pub fn switch_report(light: LightState) -> (parts: Vec<Vec<u8>>)
    ensures
        parts@.len() == 3,
        parts@[0]@ == switch_report_prefix(),
        parts@[1]@ == seq![light.spec_digit()],
        parts@[2]@ == switch_report_suffix(),
        parts@[0]@ + parts@[1]@ + parts@[2]@ == switch_report_line(light),
{
    let prefix: Vec<u8> = vec![
        83, 119, 105, 116, 99, 104, 101, 100, 32, 108, 105, 103, 104, 116, 32, 116, 111, 32,
    ];
    let digit: Vec<u8> = vec![light.digit()];
    let suffix: Vec<u8> = vec![13, 10];
    let mut parts: Vec<Vec<u8>> = Vec::new();
    parts.push(prefix);
    parts.push(digit);
    parts.push(suffix);
    parts
}

/// The light cycle has period three: no light repeats before the third step,
/// and the third step comes back to where it started.
pub proof fn lemma_light_cycle_period_three(light: LightState)
    ensures
        light.spec_next() != light,
        light.spec_next().spec_next() != light,
        light.spec_next().spec_next().spec_next() == light,
{
}

/// Exactly one LED pin is driven low in every light state, and it is the pin of
/// the light the state names.
pub proof fn lemma_exactly_one_led_lit(light: LightState)
    ensures
        (light.spec_led_levels().red == Level::Low) <==> (light == LightState::Red),
        (light.spec_led_levels().green == Level::Low) <==> (light == LightState::Green),
        (light.spec_led_levels().blue == Level::Low) <==> (light == LightState::Blue),
{
}

/// Distinct lights get distinct report digits, each one of `'0'`, `'1'`, `'2'`.
pub proof fn lemma_report_digit_names_light(a: LightState, b: LightState)
    ensures
        ASCII_ZERO <= a.spec_digit() <= ASCII_ZERO + 2,
        a.spec_digit() == b.spec_digit() <==> a == b,
{
}

} // verus!
