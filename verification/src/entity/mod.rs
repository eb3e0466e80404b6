//! The records of menus, users and orders as they are stored.

pub mod models;
