pub mod deploy;
pub mod host;
pub mod proc;
pub mod search;
