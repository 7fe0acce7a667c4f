pub mod apk;
pub mod public;
pub mod secret;
