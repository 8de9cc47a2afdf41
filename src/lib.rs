//! Heroku-like short names: a random adjective, a random noun and a random
//! token, joined by a delimiter (`"flying-bat-4821"`).

pub mod haikunator;
pub mod name;
pub mod random;
pub mod shape;
pub mod words;

pub use haikunator::{Haikunator, HaikunatorParams};
pub use random::RandomSource;
pub use words::{default_adjectives, default_nouns};
