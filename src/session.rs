//! The keys of the main screen: which tone each key plays, and the octave
//! and strength that the operator sets.
use vstd::prelude::*;
use crate::note::pow2;

verus! {

/// Which screen has the keyboard.
#[derive(Clone, Copy, Debug, PartialEq, Eq, Structural)]
pub enum AppState {
    /// The main screen, where keys play tones.
    Running,
    /// The form for messages typed in by hand.
    Manual,
    /// The serial port settings.
    ComConfig,
}

/// What a key of the main screen asks for.
#[derive(Clone, Copy, Debug, PartialEq, Eq, Structural)]
pub enum Command {
    /// Leave the program.
    Quit,
    /// Open the form for messages typed in by hand.
    EnterManual,
    /// Open the serial port settings (and look for ports again).
    EnterComConfig,
    /// Toggle the tone at `freq` millihertz with strength `strength`.
    Toggle { freq: u32, strength: u8 },
    /// Switch every tone off.
    ClearAll,
    /// Switch random strength on or off.
    ToggleRand,
    /// Nothing.
    Nothing,
}

/// Lowest octave shift.
pub const MIN_OCTAVE: i8 = -6;

/// Highest octave shift.
pub const MAX_OCTAVE: i8 = 4;

/// Step by which the strength goes up or down.
pub const STRENGTH_STEP: u8 = 5;

/// `base` millihertz shifted by `octave` octaves: `base * 2^octave`, rounded
/// to the nearest millihertz (halves up).
pub open spec fn shifted(base: int, octave: int) -> int {
    if octave >= 0 {
        base * pow2(octave as nat)
    } else {
        (2 * base + pow2((-octave) as nat)) / (2 * pow2((-octave) as nat))
    }
}

/// The base frequency in millihertz of the tone a key plays, and whether it
/// sounds one octave up: the keys `s d f g h j k` play C D E F G A B, `l` the
/// next C.
pub open spec fn key_tone(c: char) -> Option<(u32, bool)> {
    match c {
        's' => Some((261630u32, false)),
        'd' => Some((293660u32, false)),
        'f' => Some((329630u32, false)),
        'g' => Some((349230u32, false)),
        'h' => Some((392000u32, false)),
        'j' => Some((440000u32, false)),
        'k' => Some((493880u32, false)),
        'l' => Some((261630u32, true)),
        _ => None,
    }
}

proof fn lemma_pow2_small(i: nat)
    requires
        i <= 7,
    ensures
        1 <= pow2(i) <= 128,
{
    reveal_with_fuel(pow2, 8);
}

/// `base` millihertz shifted by `octave` octaves, rounded to the nearest
/// millihertz.
pub fn key_frequency(base: u32, octave: i8) -> (r: u32)
    requires
        base <= 500_000,
        -7 <= octave <= 5,
    ensures
        r == shifted(base as int, octave as int),
{
    let k: u32 = if octave >= 0 {
        octave as u32
    } else {
        (-(octave as i32)) as u32
    };
    let mut p: u64 = 1;
    let mut i: u32 = 0;
    while i < k
        invariant
            k <= 7,
            i <= k,
            p == pow2(i as nat),
            1 <= p <= 128,
        decreases k - i,
    {
        proof {
            lemma_pow2_small((i + 1) as nat);
        }
        p = p * 2;
        i = i + 1;
    }
    assert(base as u64 * p <= 64_000_000) by (nonlinear_arith)
        requires
            base <= 500_000,
            p <= 128,
    ;
    if octave >= 0 {
        (base as u64 * p) as u32
    } else {
        ((2 * base as u64 + p) / (2 * p)) as u32
    }
}

/// The octave and strength set on the main screen.
pub struct Controls {
    attenuation: u8,
    octave: i8,
}

/// The strength and octave after the key `c`, and what the key asks for.
pub open spec fn after_running_key(strength: u8, octave: i8, c: char) -> (u8, i8, Command) {
    match c {
        'q' => (strength, octave, Command::Quit),
        'm' => (strength, octave, Command::EnterManual),
        'p' => (strength, octave, Command::EnterComConfig),
        'v' => (if strength > 0 { (strength - 5) as u8 } else { strength }, octave, Command::Nothing),
        'V' => (if strength < 255 { (strength + 5) as u8 } else { strength }, octave, Command::Nothing),
        'n' => (strength, if octave > MIN_OCTAVE { (octave - 1) as i8 } else { octave }, Command::Nothing),
        'N' => (strength, if octave < MAX_OCTAVE { (octave + 1) as i8 } else { octave }, Command::Nothing),
        'c' => (strength, octave, Command::ClearAll),
        'r' => (strength, octave, Command::ToggleRand),
        _ => match key_tone(c) {
            Some((base, up)) => (
                strength,
                octave,
                Command::Toggle {
                    freq: shifted(base as int, octave + if up { 1int } else { 0int }) as u32,
                    strength,
                },
            ),
            None => (strength, octave, Command::Nothing),
        },
    }
}

impl Controls {
    /// The strength given to the tones the keys play.
    pub closed spec fn spec_strength(&self) -> u8 {
        self.attenuation
    }

    /// The octave shift of the keys.
    pub closed spec fn spec_octave(&self) -> i8 {
        self.octave
    }

    /// The strength is a multiple of the step, and the octave shift lies
    /// within its bounds.
    pub open spec fn wf(&self) -> bool {
        self.spec_strength() % 5 == 0 && MIN_OCTAVE <= self.spec_octave() <= MAX_OCTAVE
    }

    /// Strength 185, one octave up.
    pub fn new() -> (r: Controls)
        ensures
            r.wf(),
            r.spec_strength() == 185,
            r.spec_octave() == 1,
    {
        Controls { attenuation: 185, octave: 1 }
    }

    /// The strength given to the tones the keys play.
    pub fn strength(&self) -> (r: u8)
        ensures
            r == self.spec_strength(),
    {
        self.attenuation
    }

    /// The octave shift of the keys.
    pub fn octave(&self) -> (r: i8)
        ensures
            r == self.spec_octave(),
    {
        self.octave
    }

    /// Handles the key `c` of the main screen: sets the strength (`v`, `V`)
    /// or the octave (`n`, `N`), or says what the key asks for.
    pub fn running_key(&mut self, c: char) -> (r: Command)
        requires
            old(self).wf(),
        ensures
            final(self).wf(),
            (final(self).spec_strength(), final(self).spec_octave(), r) == after_running_key(
                old(self).spec_strength(),
                old(self).spec_octave(),
                c,
            ),
    {
        match c {
            'q' => Command::Quit,
            'm' => Command::EnterManual,
            'p' => Command::EnterComConfig,
            'v' => {
                if self.attenuation > 0 {
                    self.attenuation = self.attenuation - STRENGTH_STEP;
                }
                Command::Nothing
            },
            'V' => {
                if self.attenuation < 255 {
                    self.attenuation = self.attenuation + STRENGTH_STEP;
                }
                Command::Nothing
            },
            'n' => {
                if self.octave > MIN_OCTAVE {
                    self.octave = self.octave - 1;
                }
                Command::Nothing
            },
            'N' => {
                if self.octave < MAX_OCTAVE {
                    self.octave = self.octave + 1;
                }
                Command::Nothing
            },
            'c' => Command::ClearAll,
            'r' => Command::ToggleRand,
            _ => {
                let tone: Option<(u32, bool)> = match c {
                    's' => Some((261630, false)),
                    'd' => Some((293660, false)),
                    'f' => Some((329630, false)),
                    'g' => Some((349230, false)),
                    'h' => Some((392000, false)),
                    'j' => Some((440000, false)),
                    'k' => Some((493880, false)),
                    'l' => Some((261630, true)),
                    _ => None,
                };
                match tone {
                    Some((base, up)) => {
                        let octave = if up {
                            self.octave + 1
                        } else {
                            self.octave
                        };
                        Command::Toggle {
                            freq: key_frequency(base, octave),
                            strength: self.attenuation,
                        }
                    },
                    None => Command::Nothing,
                }
            },
        }
    }
}

} // verus!
