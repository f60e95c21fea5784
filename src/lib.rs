pub mod clock;
pub mod error;
pub mod music;
pub mod session;
pub mod song;
pub mod status;
pub mod text;
pub mod timing;
pub mod window;
