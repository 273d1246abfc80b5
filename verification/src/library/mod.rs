pub mod lambda;
pub mod runs;
