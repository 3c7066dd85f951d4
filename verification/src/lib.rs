pub mod atoms;
pub mod steps;
