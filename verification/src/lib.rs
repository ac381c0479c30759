//! A package's information screen, computed from plain records.
//!
//! The library answers three questions about a package of a pacman-style
//! system and lays the answers out as a screen of text:
//!
//! - [`resolve`] finds a package by its exact name: in the repositories, in
//!   the order of their priority, and among the installed packages.
//! - [`package`] holds the records, and classifies each dependency by the
//!   installed package that satisfies it.
//! - [`details`] and [`output`] lay out the title, the description, what is
//!   installed, and the two lists of dependencies, as styled text.
//! - [`width`] chooses the width at which the description is wrapped, and
//!   [`wrap`] wraps it.
//!
//! Nothing here reads a database or writes to a terminal. A caller copies what
//! its database holds into records, and writes the finished screen wherever it
//! likes. Every function states what it returns over the views of its
//! arguments, so what the screen shows follows from the records alone.

pub mod details;
pub mod output;
pub mod package;
pub mod resolve;
pub mod types;
pub mod width;
pub mod wrap;
