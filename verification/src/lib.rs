pub mod binding;
pub mod captures;
pub mod carrier;
pub mod consumer;
pub mod eval;
pub mod interface;
pub mod offsets;
pub mod source;
pub mod syntax;
pub mod text;
