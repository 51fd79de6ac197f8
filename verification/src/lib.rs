pub mod crypto;
pub mod discovery;
pub mod ops;
pub mod text;
pub mod wallet;
