pub mod cpu;
pub mod machine;
pub mod opcodes;
pub mod status;
