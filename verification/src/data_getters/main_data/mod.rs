pub mod cpuid_data;
pub mod msr;
pub mod system_data;
