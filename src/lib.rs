pub mod alu;
pub mod cpu;
pub mod exec;
pub mod gpu;
pub mod laws;
pub mod mmu;
pub mod registers;
pub mod system;
pub mod timer;

pub use cpu::{Register, CPU};
pub use gpu::GPU;
pub use mmu::MMU;
pub use registers::{Flags, Registers};
pub use system::GameBoy;
pub use timer::Timer;
