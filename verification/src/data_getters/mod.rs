pub mod cpuid_data;
pub mod main_data;
