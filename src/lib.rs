//! Game rules of a small physics game: beakers launch pills at falling
//! patients, and every pill that reaches a patient saves it.
//!
//! All quantities are integers. Lengths, forces and torques are fixed-point
//! values in thousandths of a world unit (see [`geometry::MILLI`]); window and
//! texture sizes are whole pixels; angles are whole degrees, counterclockwise.

pub mod arena;
pub mod beaker;
pub mod geometry;
pub mod input;
pub mod menu;
pub mod patient;
pub mod pill;
mod random;
pub mod ui;
