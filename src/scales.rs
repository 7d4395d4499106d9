pub use degree::Degree;
pub use util::{diatonic_mode, generate_scale, major, minor};

pub mod degree;
pub mod diatonic;
pub mod harmonic_minor;
pub mod helper;
pub mod util;
