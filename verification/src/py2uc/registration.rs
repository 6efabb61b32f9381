//! How py2uc describes itself to the plugin registry.
use vstd::prelude::*;

use crate::bytecode::module::BYTECODE_VERSION;
use crate::ccis::{CcisManifest, CCIS_ABI_VERSION, CCIS_MANIFEST_VERSION};
use crate::plugin::{
    registrable, BytecodeVersionRange, CcisPluginInfo, PluginManifest, PluginType,
    PLUGIN_MANIFEST_VERSION,
};

verus! {

/// The plugin manifest of py2uc: a compiler of Python 3 (`.py` files) to
/// bytecode versions `1..=BYTECODE_VERSION`, with generational GC.
pub fn plugin_manifest() -> (m: PluginManifest)
    ensures
        m.manifest_version == PLUGIN_MANIFEST_VERSION,
        m.name@ == "py2uc"@,
        m.version@ == "0.0.5"@,
        m.plugin_type == PluginType::Compiler,
        m.description@ == "Python 3 to UtenCore bytecode compiler"@,
        m.author@ == "Uten Core Contributors"@,
        m.bytecode_version == (BytecodeVersionRange { min: 1, max: BYTECODE_VERSION }),
        m.ccis matches Some(info) && info.language@ == "Python 3"@ && info.extensions@.len() == 1
            && info.extensions@[0]@ == "py"@ && info.default_gc@ == "generational"@,
        registrable(m),
{
    proof {
        reveal_strlit("py2uc");
        reveal_strlit("0.0.5");
        reveal_strlit("Python 3");
        reveal_strlit("py");
    }
    PluginManifest {
        manifest_version: 1,
        name: "py2uc".to_owned(),
        version: "0.0.5".to_owned(),
        plugin_type: PluginType::Compiler,
        description: "Python 3 to UtenCore bytecode compiler".to_owned(),
        author: "Uten Core Contributors".to_owned(),
        bytecode_version: BytecodeVersionRange { min: 1, max: BYTECODE_VERSION },
        ccis: Some(
            CcisPluginInfo {
                language: "Python 3".to_owned(),
                extensions: vec!["py".to_owned()],
                default_gc: "generational".to_owned(),
            },
        ),
    }
}

/// The legacy (C ABI) manifest of py2uc.
pub fn ccis_manifest() -> (m: CcisManifest)
    ensures
        m.ccis_version == CCIS_MANIFEST_VERSION,
        m.name@ == "py2uc"@,
        m.language@ == "Python 3"@,
        m.extensions@.len() == 1,
        m.extensions@[0]@ == "py"@,
        m.description@ == "Python 3 to UtenCore bytecode compiler"@,
        m.default_gc@ == "generational"@,
        m.abi_version == CCIS_ABI_VERSION,
{
    let exts = ["py"];
    let mut m = CcisManifest::new("py2uc", "Python 3", exts.as_slice());
    m.description = "Python 3 to UtenCore bytecode compiler".to_owned();
    m.default_gc = "generational".to_owned();
    m
}

} // verus!
