//! Lindenmayer systems: an arena of grammar symbols, a builder that checks and
//! compiles the grammar, a rewriting engine, and turtles that turn a symbol
//! sequence into line segments.
pub mod angle;
pub mod arena;
pub mod builder;
pub mod errors;
pub mod lattice;
pub mod renderer;
pub mod system;
pub mod token;
pub mod turtle;
pub mod turtle_system;
pub mod words;

pub use arena::{Arena, ArenaId, EnumerableArena};
pub use builder::LSystemBuilder;
pub use errors::LSystemError;
pub use system::LSystem;
pub use token::Token;
