pub mod mapper;
pub mod cartridge;
pub mod laws;
pub mod nes;
