//! Score data read from rhythm-game evaluation screenshots, and a weighted
//! comparison that tells how likely two such records describe the same score.
//!
//! A screenshot shows a score in one of two known layouts. For each layout the
//! library knows the regions of the screen, maps them to the pixels of the
//! image, and turns the text that a recognition engine reads in each region
//! into one attribute of a record. The engines themselves are the caller's:
//! [`session::Recognition`] tells step by step what they are to do.

pub mod chart;
pub mod geometry;
pub mod judgements;
pub mod layout;
pub mod number;
pub mod record;
pub mod session;
pub mod template;
pub mod text;

pub use judgements::{parse_slash_separated_judgement_string, TapJudgementsMaybe};
pub use record::{EvaluationScreenData, MINIMUM_EQUALITY_SCORE_TO_BE_PROBABLY_EQUAL};
pub use session::Error;
