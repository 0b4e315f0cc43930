//! A reader for a small behaviour-description language embedded in a host
//! language's token stream: nested `describe`/`context` groups that hold
//! `it`/`test` examples, `bench` benchmarks and `before`/`after` hooks.
//!
//! The host front end supplies balanced token trees; the reader turns them
//! into a [`tree::Group`] or reports the first [`error::SyntaxError`].

pub mod token;
pub mod tree;
pub mod error;
pub mod keyword;
pub mod grammar;
pub mod parser;
pub mod laws;
