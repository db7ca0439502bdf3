//! The first-generation ARM helpers: condition codes, mode bits and the
//! result of an arithmetic operation.

pub mod condition;
pub mod cpu_modes;
pub mod data_processing;
