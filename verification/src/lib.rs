//! UtenCore: bytecode format, module verification, compiler-plugin manifests.
pub mod opcodes;
pub mod bytecode;
pub mod names;
pub mod ccis;
pub mod cib;
pub mod plugin;
pub mod text;
pub mod ucsl;
pub mod ucif_compiler;
pub mod ir;
pub mod py2uc;
pub mod driver;
