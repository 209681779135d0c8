pub mod net;
pub mod path;
pub mod disk;
