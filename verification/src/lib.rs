pub mod error;
pub mod network;
mod outside;
