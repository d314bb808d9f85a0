//! Decides whether a chat message deserves the "nice prime" reply.
mod classify;
mod decimal;
mod primality;
mod words;

pub use classify::{
    classify, classify_bytes, lemma_bot_messages_never_answered, lemma_classify_deterministic,
    Classification,
};
pub use decimal::parse_decimal;
pub use primality::is_nice_prime;
pub use words::is_ascii_space;
