# utencore

The UtenCore toolchain's library, verified with Verus: the bytecode format
and its verifier, the compiler-plugin manifests and registry, the C interface
(CIB/UCIF) descriptions and layouts, the UCSL library registry, the IR
lowering, and the Python-to-bytecode compiler (tokenizer, parser, code
generator).

- `src/` — the library. Each function states what it computes in its
  contract; the Python grammar and code generation are stated as spec
  functions (`py2uc::grammar`, `py2uc::codegen`) that the executable code
  is proved against.
- `tests/` — tests on concrete values.
- `app/` — the command-line tools (`ucc`, `ucdump`, `ucif`): file I/O,
  argument handling, the binary and JSON encodings (serde, bincode,
  serde_yaml), and reading float literals.

Not here: the virtual machine (dispatch, garbage collector, native
functions), the JIT and the dynamic loading of C libraries and compiler
plugins. A compiler plugin can be registered from its manifest, but only
the built-in Python compiler can be run: registering does not take a
compile function. The VM parts rest on the `utencore_types` and
`utencore_gc` crates, on libffi/libloading and LLVM; so `uc`/`ucw`, which
run modules, are absent too.
