pub mod credential;
pub mod identity;
pub mod permission;
pub mod pipeline;
pub mod provider;
pub mod roles;
pub mod text;
pub mod socket;
pub mod login;
