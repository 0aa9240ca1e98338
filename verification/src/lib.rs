//! The value model of a client for a key/value store: values, keys, maps and
//! command arguments, with the conversions between them.
pub mod aggregate;
pub mod buffer;
pub mod coerce;
pub mod compare;
pub mod distinct;
pub mod duplicate;
pub mod equality;
pub mod error;
pub mod extract;
pub mod hashing;
pub mod key;
pub mod key_from;
pub mod laws;
pub mod map;
pub mod map_from;
pub mod number;
pub mod number_from;
pub mod render;
pub mod text;
pub mod value;
pub mod value_from;

pub use crate::coerce::FloatSource;
pub use crate::error::{RedisError, RedisErrorKind};
pub use crate::extract::FromRedis;
pub use crate::key::RedisKey;
pub use crate::map::RedisMap;
pub use crate::number::StringOrNumber;
pub use crate::value::{Double, RedisValue, RedisValueKind};
