//! A fixed-timestep 2D rigid-body simulation of colliding circles over
//! exact rational arithmetic: semi-implicit Euler integration under
//! optional gravity, and iterative resolution of boundary and pairwise
//! elastic collisions until a stable configuration is reached.

pub mod body;
pub mod laws;
pub mod rat;
pub mod sim;
pub mod vec2;

pub use body::Circle;
pub use body::FCircle;
pub use rat::Frac;
pub use rat::Rat;
pub use vec2::FVec;
pub use vec2::Vec2;
