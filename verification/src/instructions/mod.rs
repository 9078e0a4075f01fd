//! The instruction handlers, grouped by what they work on. Each handler
//! comes with the specification function that states its effect.
pub mod values;
pub mod prototypes;
pub mod variables;
pub mod integer;
pub mod float;
pub mod flow;
pub mod array;
pub mod string;
pub mod methods;
pub mod stdout;
pub mod io;
pub mod loader;
pub mod frames;
