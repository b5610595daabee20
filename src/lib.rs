pub mod audio;
pub mod bridge;
pub mod focus;
pub mod video;
