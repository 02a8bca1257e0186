pub mod bird;
pub mod block;
pub mod level;
pub mod pig;
pub mod rules;
pub mod session;
