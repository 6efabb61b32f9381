//! The bytecode format: encoding helpers, modules, verification and loading.
pub mod le;
pub mod writer;
pub mod module;
pub mod verify;
pub mod builder;
pub mod loader;

pub use writer::{BytecodeReader, BytecodeWriter};
pub use module::{
    ConstValue, ExceptionTableEntry, ExportEntry, FuncRef, FunctionDef, GlobalDef, ImportEntry,
    ImportType, LineEntry, ModuleHeader, VmVersion, StringId, StructDef, StructId, UtenModule,
    BYTECODE_VERSION,
};
pub use verify::{quick_verify, verify_module, VerifyError};
pub use builder::ModuleBuilder;
pub use loader::ModuleLoader;
