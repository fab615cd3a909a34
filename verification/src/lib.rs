//! A monadic parser-combinator algebra over a token stream.
//!
//! A parser is a value that, handed a cursor over a sequence of tokens,
//! either succeeds with a shared value or fails with a position and a
//! message. Combinators build new parsers out of existing ones; each
//! combinator's behaviour is given by a mathematical model
//! ([`Parser::run`]) and every executable entry point is proved to agree
//! with it.

pub mod combinator;
pub mod error;
pub mod laws;
pub mod parser;
pub mod state;

pub use crate::error::{Failure, SimpleError};
pub use crate::parser::{Binder, Outcome, Parser, Status};
pub use crate::state::{Stream, VecState};
