use vstd::prelude::*;

verus! {

/// A change of state of one key of the keypad.
#[derive(Debug, Clone, Copy, Hash, PartialEq, Eq, Structural)]
pub enum Input {
    Up(Key),
    Down(Key),
}

/// The 16 keys of the hexadecimal keypad; each key's number is its hexadecimal digit.
#[derive(Debug, Clone, Copy, Hash, PartialEq, Eq, Structural)]
pub enum Key {
    Key0,
    Key1,
    Key2,
    Key3,
    Key4,
    Key5,
    Key6,
    Key7,
    Key8,
    Key9,
    KeyA,
    KeyB,
    KeyC,
    KeyD,
    KeyE,
    KeyF,
}

/// The behaviours in which CHIP-8 interpreters differ and that can be switched.
#[derive(Debug, Copy, Clone)]
pub struct Quirks {
    /// `DXYN` wraps sprites that cross a screen edge round to the opposite side; when off,
    /// such sprites are clipped at the edge.
    pub draw_wrap: bool,
    /// `8XY1`, `8XY2` and `8XY3` reset the flag register `VF` to 0.
    pub vf_reset: bool,
}

impl Default for Quirks {
    fn default() -> (q: Self)
        ensures
            q.draw_wrap,
            !q.vf_reset,
    {
        Self { draw_wrap: true, vf_reset: false }
    }
}

/// What drives an interpreter that is fed by a queue of events.
#[derive(Debug, Clone, Copy, Hash, PartialEq, Eq, Structural)]
pub enum Event {
    /// Time to run one cycle.
    Tick,
    /// A key changed state.
    Input(Input),
}

/// The number of a key: its hexadecimal digit.
pub open spec fn key_number(k: Key) -> u8 {
    k as u8
}

} // verus!
