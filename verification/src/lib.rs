//! A 2-D constraint-dynamics sandbox: point masses joined by holonomic
//! equality constraints (anchors, rigid links, sliding planes, pulleys),
//! advanced once per tick by one of several interchangeable correction
//! strategies, all computed in 16.16 fixed-point arithmetic.

pub mod assembly;
pub mod body;
pub mod constraints;
pub mod fixed;
pub mod grid;
pub mod integrate;
pub mod linsolve;
pub mod matrix;
pub mod scenarios;
pub mod session;
pub mod snapshot;
pub mod solvers;
pub mod vec2;
pub mod world;
