//! A minimal personal blog server library.
//!
//! The library assembles a complete HTML document from a body fragment and a
//! title, produces the fixed home-page fragment, and decides how an HTTP
//! request is routed and answered.  Everything here is plain string and
//! routing logic with proved contracts; the network and filesystem edges live
//! outside the library.

pub mod config;
pub mod controllers;
pub mod page;
pub mod router;
pub mod text;
