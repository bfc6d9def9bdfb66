//! The page model of a local web server whose pages are set and watched by
//! other programs.
//!
//! A page is either dynamic (a title and a body that every browser viewing it
//! keeps up to date over a stream of server-sent events) or static (a fixed
//! array of bytes). The modules here hold what a page decides: what it stores,
//! what it tells the browsers that are viewing it and when, how it is rendered,
//! and how a request to evaluate JavaScript in it ends.
pub mod channel;
pub mod content;
pub mod evaluate;
pub mod laws;
pub mod page;
pub mod queries;
pub mod template;
pub mod wire;
