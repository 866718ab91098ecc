mod bits;
mod clock;
pub mod effects;
pub mod laws;
mod machine;
pub mod model;
mod random;
mod stack;
mod types;

pub use crate::clock::{Clock, ClockState};
pub use crate::machine::Chip8;
pub use crate::model::{Instruction, Machine, DISPLAY_HEIGHT, DISPLAY_WIDTH};
pub use crate::types::{Event, Input, Key, Quirks};
