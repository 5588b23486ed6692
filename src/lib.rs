//! Decision logic of a two-network chat bridge: message routing filters,
//! identity records and linking, alias and avatar selection, inline mention
//! translation and the private command language.
pub mod command;
pub mod directory;
pub mod gravatar;
pub mod identity;
pub mod mention;
pub mod resolve;
pub mod router;
pub mod slash;
pub mod text;
