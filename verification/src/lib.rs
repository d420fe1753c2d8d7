//! Link checking for a small crawler: a bounded-time reachability probe for a
//! single URL, modelled as a state machine over the signals of a race, and the
//! extraction of every anchor target from an HTML document.

pub mod dom;
pub mod fetch;
pub mod parse;
pub mod syntax;
