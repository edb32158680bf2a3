pub mod array;
pub mod chunk;
pub mod executor;
pub mod numeric;
pub mod plan;
