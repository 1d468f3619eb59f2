pub mod alu;
pub mod bus;
pub mod cpu;
pub mod internal_state;
pub mod laws;
pub mod machine;
pub mod model;
pub mod ppi;
pub mod slot;
pub mod sound;
pub mod utils;
pub mod vdp;

pub use cpu::Z80;
pub use internal_state::{InternalState, ReportState};
pub use machine::Msx;
pub use vdp::TMS9918;
