//! A shared, time-bounded group food order: the session state machine, the
//! actions that drive it, and the single-writer store that applies them.
//!
//! - [`control`]: the session, its actions with their reductions, the store,
//!   and the laws that hold of them.
//! - [`orders`]: an order as an aggregate with a lifecycle of its own.
//! - [`boundary`] and [`entity`]: the shapes of requests, responses and
//!   stored records.
//! - [`frontend`]: the totals and groups that the page of an order shows.
//! - [`text`]: the text building that the others share.
//!
//! # One session
//!
//! The aggregate that the actions and the store work on is the session of
//! [`control`]: one round at a time, with one phase for all participants. The
//! transition table, the error kinds and the laws of [`control::laws`] are
//! stated of it.
//!
//! [`orders::order::Order`] is a second, richer shape of the same thing, with
//! an id, a deadline, an estimate of the arrival and four stages. It is kept
//! as a type of its own: the store neither holds nor drives orders, and what
//! is said of the session does not bind an order. In particular
//! `Order::finalize_order` goes by the stage alone and does not look at the
//! items, where finalizing the session refuses a round without order lines.
//!
//! An arrival returns the session to idle and keeps the order lines; only
//! cancelling a round as a whole removes them.

pub mod boundary;
pub mod control;
pub mod entity;
pub mod frontend;
pub mod orders;
pub mod text;
