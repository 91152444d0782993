//! The state that the LED can be set to, as it appears in a request path.
use vstd::prelude::*;
use vstd::string::StrSliceExecFns;

verus! {

/// The two states of the LED.
#[derive(Debug, Clone, Copy, PartialEq, Eq, Structural)]
pub enum LedState {
    Off,
    On,
}

/// The text of each state in a request path.
pub open spec fn led_text(s: LedState) -> Seq<char> {
    match s {
        LedState::On => seq!['o', 'n'],
        LedState::Off => seq!['o', 'f', 'f'],
    }
}

/// The state that a path segment names, if any: `on` or `off`, nothing else.
pub open spec fn parse_led(s: Seq<char>) -> Option<LedState> {
    if s == led_text(LedState::On) {
        Some(LedState::On)
    } else if s == led_text(LedState::Off) {
        Some(LedState::Off)
    } else {
        None
    }
}

impl LedState {
    /// Reads a state from its text; any other text is refused.
    pub fn from_str(s: &str) -> (r: Result<LedState, ()>)
        ensures
            r matches Ok(v) ==> parse_led(s@) == Some(v),
            r is Err <==> parse_led(s@) is None,
    {
        let n = s.unicode_len();
        if n == 2 && s.get_char(0) == 'o' && s.get_char(1) == 'n' {
            assert(s@ =~= led_text(LedState::On));
            Ok(LedState::On)
        } else if n == 3 && s.get_char(0) == 'o' && s.get_char(1) == 'f' && s.get_char(2) == 'f' {
            assert(s@ =~= led_text(LedState::Off));
            Ok(LedState::Off)
        } else {
            assert(s@ != led_text(LedState::On) && s@ != led_text(LedState::Off)) by {
                if s@ == led_text(LedState::On) {
                    assert(s@[0] == 'o' && s@[1] == 'n');
                }
                if s@ == led_text(LedState::Off) {
                    assert(s@[0] == 'o' && s@[1] == 'f' && s@[2] == 'f');
                }
            }
            Err(())
        }
    }

    /// The text of this state, as a path writes it.
    pub fn as_str(&self) -> (r: &'static str)
        ensures
            r@ == led_text(*self),
    {
        match self {
            LedState::On => {
                let r = "on";
                proof {
                    reveal_strlit("on");
                }
                assert(r@ =~= led_text(LedState::On));
                r
            },
            LedState::Off => {
                let r = "off";
                proof {
                    reveal_strlit("off");
                }
                assert(r@ =~= led_text(LedState::Off));
                r
            },
        }
    }

    /// The level to drive the LED's pin to: high for on.
    pub fn is_on(self) -> (r: bool)
        ensures
            r == (self == LedState::On),
    {
        match self {
            LedState::On => true,
            LedState::Off => false,
        }
    }
}

} // verus!
