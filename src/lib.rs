pub mod color;
pub mod nes;
