//! Hardware and system statistics collection for the msr_server tool:
//! CPUID-derived processor data, model specific register field decoding,
//! system-statistic decisions and the user module pipeline.
pub mod text;
pub mod misc;
pub mod data_getters;
