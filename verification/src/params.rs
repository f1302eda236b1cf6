//! The amplitude parameter and its index-addressed interface.
//!
//! The plugin exposes exactly one host-visible parameter: a normalized
//! amplitude.  It is kept in fixed point as a fraction of
//! [`AMP_ONE`](crate::signal::AMP_ONE), so storage, index dispatch and
//! the two-decimal display text are all plain integer logic.  The
//! host-facing layer converts between this fraction and the host's
//! normalized floating-point value.

use vstd::prelude::*;
use vstd::string::StringExecFns;
use crate::signal::AMP_ONE;

verus! {

/// Default amplitude: one half of full scale.
pub const AMP_DEFAULT: u32 = 500_000;

/// The decimal digit `d` as a character.
pub open spec fn digit_char(d: int) -> char {
    if d == 0 {
        '0'
    } else if d == 1 {
        '1'
    } else if d == 2 {
        '2'
    } else if d == 3 {
        '3'
    } else if d == 4 {
        '4'
    } else if d == 5 {
        '5'
    } else if d == 6 {
        '6'
    } else if d == 7 {
        '7'
    } else if d == 8 {
        '8'
    } else {
        '9'
    }
}

/// An amplitude fraction rounded to the nearest hundredth of full
/// scale; between 0 and 100 for a well-formed amplitude.
pub open spec fn hundredths_of(amp: u32) -> int {
    (amp + 5000) / 10000
}

/// The display text of an amplitude: its value rounded to two decimal
/// places, as in `0.50`.
pub open spec fn amplitude_text_spec(amp: u32) -> Seq<char> {
    seq![
        digit_char(hundredths_of(amp) / 100),
        '.',
        digit_char((hundredths_of(amp) / 10) % 10),
        digit_char(hundredths_of(amp) % 10),
    ]
}

/// The decimal digit `d` as a one-character string slice.
fn digit_str(d: u32) -> (r: &'static str)
    requires
        d < 10,
    ensures
        r@ =~= seq![digit_char(d as int)],
{
    if d == 0 {
        proof {
            reveal_strlit("0");
        }
        "0"
    } else if d == 1 {
        proof {
            reveal_strlit("1");
        }
        "1"
    } else if d == 2 {
        proof {
            reveal_strlit("2");
        }
        "2"
    } else if d == 3 {
        proof {
            reveal_strlit("3");
        }
        "3"
    } else if d == 4 {
        proof {
            reveal_strlit("4");
        }
        "4"
    } else if d == 5 {
        proof {
            reveal_strlit("5");
        }
        "5"
    } else if d == 6 {
        proof {
            reveal_strlit("6");
        }
        "6"
    } else if d == 7 {
        proof {
            reveal_strlit("7");
        }
        "7"
    } else if d == 8 {
        proof {
            reveal_strlit("8");
        }
        "8"
    } else {
        proof {
            reveal_strlit("9");
        }
        "9"
    }
}

/// Formats an amplitude fraction to two decimal places.
pub fn amplitude_text(amp: u32) -> (r: String)
    requires
        amp <= AMP_ONE,
    ensures
        r@ == amplitude_text_spec(amp),
{
    let h: u32 = (amp + 5000) / 10000;
    let whole: u32 = h / 100;
    let tenth: u32 = (h / 10) % 10;
    let hundredth: u32 = h % 10;
    let mut r = String::new();
    r.append(digit_str(whole));
    proof {
        reveal_strlit(".");
    }
    r.append(".");
    r.append(digit_str(tenth));
    r.append(digit_str(hundredth));
    proof {
        assert(r@ =~= amplitude_text_spec(amp));
    }
    r
}

/// The single-slot parameter store: slot 0 holds the amplitude, every
/// other index is absent.
pub struct ParameterStore {
    /// Amplitude as a fraction of [`AMP_ONE`].
    pub amplitude: u32,
}

/// The value the store reports for an index: the amplitude at index 0,
/// zero anywhere else.
pub open spec fn get_parameter_spec(s: ParameterStore, index: int) -> u32 {
    if index == 0 {
        s.amplitude
    } else {
        0u32
    }
}

/// The store after a write to an index: index 0 replaces the
/// amplitude, every other index changes nothing.
pub open spec fn set_parameter_spec(s: ParameterStore, index: int, v: u32) -> ParameterStore {
    if index == 0 {
        ParameterStore { amplitude: v }
    } else {
        s
    }
}

/// The display text the store reports for an index: the amplitude to
/// two decimals at index 0, empty anywhere else.
pub open spec fn parameter_text_spec(s: ParameterStore, index: int) -> Seq<char> {
    if index == 0 {
        amplitude_text_spec(s.amplitude)
    } else {
        Seq::empty()
    }
}

/// The display name of an index: `Amplitude` at index 0, empty
/// anywhere else.
pub open spec fn parameter_name_spec(index: int) -> Seq<char> {
    if index == 0 {
        "Amplitude"@
    } else {
        Seq::empty()
    }
}

impl ParameterStore {
    /// A well-formed store holds a normalized amplitude.
    pub open spec fn wf(self) -> bool {
        self.amplitude <= AMP_ONE
    }

    /// A store at the default amplitude.
    pub fn new() -> (s: ParameterStore)
        ensures
            s.amplitude == AMP_DEFAULT,
            s.wf(),
    {
        ParameterStore { amplitude: AMP_DEFAULT }
    }

    /// The current amplitude fraction.
    pub fn get(&self) -> (r: u32)
        ensures
            r == self.amplitude,
    {
        self.amplitude
    }

    /// Replaces the amplitude fraction.
    pub fn set(&mut self, v: u32)
        requires
            v <= AMP_ONE,
        ensures
            final(self).amplitude == v,
            final(self).wf(),
    {
        self.amplitude = v;
    }

    /// The value of the parameter at `index`.
    pub fn get_parameter(&self, index: i32) -> (r: u32)
        ensures
            r == get_parameter_spec(*self, index as int),
    {
        if index == 0 {
            self.amplitude
        } else {
            0
        }
    }

    /// Writes the parameter at `index`; indices other than 0 are
    /// ignored.
    pub fn set_parameter(&mut self, index: i32, v: u32)
        requires
            v <= AMP_ONE,
        ensures
            *final(self) == set_parameter_spec(*old(self), index as int, v),
            old(self).wf() ==> final(self).wf(),
    {
        if index == 0 {
            self.amplitude = v;
        }
    }

    /// The display text of the parameter at `index`.
    pub fn get_parameter_text(&self, index: i32) -> (r: String)
        requires
            self.wf(),
        ensures
            r@ == parameter_text_spec(*self, index as int),
    {
        if index == 0 {
            amplitude_text(self.amplitude)
        } else {
            let r = String::new();
            r
        }
    }

    /// The display name of the parameter at `index`.
    pub fn get_parameter_name(&self, index: i32) -> (r: String)
        ensures
            r@ == parameter_name_spec(index as int),
    {
        if index == 0 {
            "Amplitude".to_owned()
        } else {
            let r = String::new();
            r
        }
    }
}

/// Writing the amplitude slot and reading it back returns the written
/// value, and the reported display text is that value to two decimals.
pub proof fn lemma_parameter_round_trip(s: ParameterStore, v: u32)
    requires
        v <= AMP_ONE,
    ensures
        get_parameter_spec(set_parameter_spec(s, 0, v), 0) == v,
        parameter_text_spec(set_parameter_spec(s, 0, v), 0) == amplitude_text_spec(v),
{
}

} // verus!
