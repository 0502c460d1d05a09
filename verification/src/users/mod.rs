pub mod email;
pub mod password;
pub mod user;
pub mod username;
