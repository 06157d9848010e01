//! A verified parser for METAR weather reports.
//!
//! The report grammar is written twice: as spec functions over the report's
//! characters (`spec_*`), which say what each group matches and what it stands
//! for, and as executable parsers (`*_at`) proved to compute exactly that.
//! Positions and spans count `char`s of the input.

pub mod lex;
pub mod error;
pub mod ws;
pub mod list;
pub mod header;
pub mod wind;
pub mod visibility;
pub mod runway;
pub mod weather;
pub mod cloud;
pub mod measure;
pub mod conditions;
pub mod trend;
pub mod remarks;
pub mod metar;
pub mod grammar;
pub mod laws;
pub mod diagnostic;

pub use crate::diagnostic::into_diagnostic;
pub use crate::error::{ParseError, Token};
pub use crate::lex::Span;
pub use crate::metar::{metar, MetarReport};
pub use crate::remarks::{remarks, Remarks};
pub mod readings;
