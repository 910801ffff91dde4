//! Bounded numeric primitives, bit colours, cellular-automaton rule tables and the
//! integer side of point-set layout, with machine-checked contracts.

pub mod automata_rules;
pub mod buffers;
pub mod char_types;
pub mod color_blend_functions;
pub mod colors;
pub mod constraint_resolvers;
pub mod discrete;
pub mod distance_functions;
pub mod mutagen_args;
pub mod nearest;
pub mod point_sets;
pub mod poisson;
pub mod preloader;
pub mod profiler;
pub mod ranged;
pub mod rules;
pub mod traits;
pub mod util;
