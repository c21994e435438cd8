//! The core of this crate is a coverage walker: a cursor over an index space
//! `[0, last]` that, round by round, samples the cursor and its power-of-two
//! "fingers" (`fingers`, `coverage`). Beside it stand small, independent
//! models: focusing on and mapping a part of a value (`focus`, `accessor`),
//! lenses and a prism (`optics`), values that record how they were built
//! (`expr`, `repr`, `introspect`), a pi-calculus step (`pi`), generic
//! parameters looked up by key (`methods`), a blue-pixel scan with the
//! decisions of the system that runs it (`pixels`), and the decisions of a
//! supervised worker system (`actors`).
pub mod fingers;
pub mod coverage;
pub mod focus;
pub mod accessor;
pub mod optics;
pub mod expr;
pub mod repr;
pub mod introspect;
pub mod pi;
pub mod methods;
pub mod pixels;
pub mod actors;
