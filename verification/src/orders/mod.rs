//! An order as an aggregate of its own: its items, the people responsible
//! for it, and its way from collecting items to the arrival.

pub mod order;
pub mod state;
