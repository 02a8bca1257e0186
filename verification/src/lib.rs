//! Two little arcade games, Space Defender and Angry Birds, and the menu that
//! launches them: their rules, levels and state machines, verified.

pub mod angry_birds;
pub mod menu;
pub mod palette;
pub mod space_defender;
