pub mod alu;
pub mod byte_stream;
pub mod cpu;
pub mod decode;
pub mod dos;
pub mod error;
pub mod executable;
pub mod execute;
pub mod instr;
pub mod modrm;
pub mod mz;
pub mod text;
pub mod x86_16;
