pub mod bcm_host;
pub mod display;
pub mod dispmanx;
pub mod image;
pub mod session;
