//! Game rules of a side-scrolling boss fight: combat layers, boss stages,
//! the enraged attack sequence, coin drops and the state-machine tables.

pub mod layers;
pub mod stage;
pub mod combat;
pub mod enraged;
pub mod anim;
pub mod random;
pub mod summon;
pub mod abilities;
pub mod coins;
pub mod machines;
