// C types, struct layouts, interface descriptors and the interface compiler.

use utencore::cib::marshal::{copy_ctype, CType, MarshalledValue};
use utencore::cib::structs::CStructLayout;
use utencore::cib::ucif::{
    frame, unframe, CallingConvention, ConstDef, ParamDef, StructFieldDef, UcifInterface, UCIF_VERSION,
};
use utencore::cib::{arg_slot_size, interface_file_candidates, library_file_name, FfiAbi};
use utencore::ucif_compiler::{
    parse_ctype, CConstant, YamlConstant, YamlField, YamlFunc, YamlParam, YamlStruct, YamlTypedef,
    YamlUcif, YamlValue,
};

fn dbg<T: std::fmt::Debug>(t: &T) -> String {
    format!("{:?}", t)
}

#[test]
fn ctype_sizes() {
    assert_eq!(CType::Void.size(), 0);
    assert_eq!(CType::Bool.size(), 1);
    assert_eq!(CType::Short.size(), 2);
    assert_eq!(CType::Int.size(), 4);
    assert_eq!(CType::Float.size(), 4);
    assert_eq!(CType::Long.size(), 8);
    assert_eq!(CType::Double.size(), 8);
    assert_eq!(CType::Pointer(Box::new(CType::Char)).size(), std::mem::size_of::<usize>());
    assert_eq!(CType::Struct("tm".to_string()).size(), std::mem::size_of::<usize>());
    assert_eq!(CType::Array(Box::new(CType::Int), 3).size(), 12);
    assert_eq!(CType::Array(Box::new(CType::Short), 5).alignment(), 10);
}

#[test]
fn copies_are_equal() {
    let t = CType::Enum("e".to_string(), Box::new(CType::Array(Box::new(CType::UChar), 2)));
    assert_eq!(dbg(&copy_ctype(&t)), dbg(&t));
}

#[test]
fn struct_layout_pads_fields_and_total() {
    let decls = vec![
        ("a".to_string(), CType::Char),
        ("b".to_string(), CType::Int),
        ("c".to_string(), CType::Short),
    ];
    let l = CStructLayout::compute("s", &decls);
    assert_eq!(l.name, "s");
    let offsets: Vec<usize> = l.fields.iter().map(|f| f.offset).collect();
    assert_eq!(offsets, vec![0, 4, 8]);
    assert_eq!(l.size, 12);
    assert_eq!(l.alignment, 4);
    assert_eq!(l.offset_of("b"), Some(4));
    assert_eq!(l.offset_of("zz"), None);
}

#[test]
fn empty_struct_layout() {
    let l = CStructLayout::compute("e", &[]);
    assert_eq!(l.size, 0);
    assert_eq!(l.alignment, 1);
    assert!(l.fields.is_empty());
}

#[test]
fn packed_struct_needs_no_padding() {
    let decls = vec![("x".to_string(), CType::Double), ("y".to_string(), CType::Double)];
    let l = CStructLayout::compute("p", &decls);
    assert_eq!(l.fields[1].offset, 8);
    assert_eq!(l.size, 16);
    assert_eq!(l.alignment, 8);
}

#[test]
fn write_to_fills_what_fits() {
    let mut small = vec![9u8; 4];
    MarshalledValue::Int(0x0102).write_to(&mut small);
    assert_eq!(small, vec![2, 1, 0, 0]);
    let mut big = vec![9u8; 10];
    MarshalledValue::UInt(1).write_to(&mut big);
    assert_eq!(big, vec![1, 0, 0, 0, 0, 0, 0, 0, 9, 9]);
    let mut s = vec![0u8; 3];
    MarshalledValue::CString(vec![b'h', b'i', 0, 7]).write_to(&mut s);
    assert_eq!(s, vec![b'h', b'i', 0]);
    let mut v = vec![5u8; 2];
    MarshalledValue::Void.write_to(&mut v);
    assert_eq!(v, vec![5, 5]);
}

#[test]
fn float_values_are_written_by_bits() {
    let mut b = vec![0u8; 8];
    MarshalledValue::Float(1.5f64.to_bits()).write_to(&mut b);
    assert_eq!(b, 1.5f64.to_le_bytes().to_vec());
}

#[test]
fn valid_interface() {
    let u = UcifInterface::new("libm")
        .with_library("m")
        .with_function(
            "sqrt",
            CType::Double,
            vec![ParamDef { name: "x".to_string(), ctype: CType::Double }],
        )
        .with_struct(
            "pair",
            vec![StructFieldDef { name: "a".to_string(), ctype: CType::Int }],
        );
    assert_eq!(u.version, UCIF_VERSION);
    assert_eq!(u.libraries, vec!["m".to_string()]);
    assert_eq!(u.functions[0].abi, CallingConvention::Cdecl);
    assert!(!u.functions[0].variadic);
    assert!(u.validate().is_ok());
}

#[test]
fn invalid_interface_lists_every_problem() {
    let mut u = UcifInterface::new("");
    u.version = 7;
    u = u.with_function(
        "",
        CType::Void,
        vec![
            ParamDef { name: "ok".to_string(), ctype: CType::Int },
            ParamDef { name: String::new(), ctype: CType::Int },
        ],
    );
    u = u.with_struct("", vec![StructFieldDef { name: String::new(), ctype: CType::Int }]);
    let errs = u.validate().unwrap_err();
    assert_eq!(
        errs,
        vec![
            "Interface name is empty".to_string(),
            "No libraries specified".to_string(),
            "Unsupported version: 7".to_string(),
            "Function 0: empty name".to_string(),
            "Function '': param 1 has empty name".to_string(),
            "Struct has empty name".to_string(),
            "Struct '': field has empty name".to_string(),
        ]
    );
}

#[test]
fn calling_convention_default() {
    assert_eq!(CallingConvention::default(), CallingConvention::Cdecl);
    assert_eq!(FfiAbi::DefaultAbi.code(), 2);
}

#[test]
fn arg_count_rules() {
    let mut u = UcifInterface::new("x").with_function(
        "f",
        CType::Int,
        vec![ParamDef { name: "a".to_string(), ctype: CType::Int }],
    );
    assert!(u.functions[0].accepts_arg_count(1));
    assert!(!u.functions[0].accepts_arg_count(2));
    u.functions[0].variadic = true;
    assert!(u.functions[0].accepts_arg_count(5));
}

#[test]
fn constant_registration_names() {
    assert_eq!(ConstDef::Int(1).registered_name(), "int");
    assert_eq!(ConstDef::UInt(1).registered_name(), "uint");
    assert_eq!(ConstDef::Float(0).registered_name(), "float");
    assert_eq!(ConstDef::Str("hello".to_string()).registered_name(), "hello");
    assert_eq!(ConstDef::Ptr("errno".to_string()).registered_name(), "errno");
}

#[test]
fn frame_round_trip() {
    let body = b"{\"a\":1}".to_vec();
    let f = frame(&body);
    assert_eq!(&f[..4], b"UCIF");
    assert_eq!(&f[4..8], &[1, 0, 0, 0]);
    assert_eq!(&f[8..12], &[7, 0, 0, 0]);
    assert_eq!(unframe(&f).unwrap(), body);
}

#[test]
fn unframe_errors() {
    assert_eq!(unframe(&[0u8; 5]).unwrap_err(), "UCIF too short");
    assert_eq!(
        unframe(&[1, 2, 3, 4, 0, 0, 0, 0, 0, 0, 0, 0]).unwrap_err(),
        "Invalid UCIF magic: expected UCIF, got [1, 2, 3, 4]"
    );
    assert_eq!(
        unframe(b"UCIF\x02\0\0\0\0\0\0\0").unwrap_err(),
        "Unsupported UCIF version: 2"
    );
    assert_eq!(unframe(b"UCIF\x01\0\0\0\x05\0\0\0ab").unwrap_err(), "UCIF truncated");
}

#[test]
fn library_files() {
    assert_eq!(library_file_name("m"), "libm.so");
    assert_eq!(library_file_name("libc.so.6"), "libc.so.6");
    assert_eq!(library_file_name("./x"), "./x");
    assert_eq!(
        interface_file_candidates("posix", true),
        vec!["ucif/posix.ucif".to_string(), "posix.ucif".to_string(), "interfaces/posix.ucif".to_string()]
    );
    assert_eq!(interface_file_candidates("posix", false).len(), 2);
    assert_eq!(arg_slot_size(&CType::Char), 8);
    assert_eq!(arg_slot_size(&CType::Array(Box::new(CType::Int), 4)), 16);
}

#[test]
fn ctype_names() {
    assert_eq!(dbg(&parse_ctype("Int").unwrap()), "Int");
    assert_eq!(dbg(&parse_ctype("Pointer(ConstPointer(Char))").unwrap()), "Pointer(ConstPointer(Char))");
    assert_eq!(dbg(&parse_ctype("Struct(tm)").unwrap()), "Struct(\"tm\")");
    assert_eq!(parse_ctype("Foo").unwrap_err(), "Unknown C type: 'Foo'");
    assert_eq!(parse_ctype("Pointer(Foo)").unwrap_err(), "Unknown C type: 'Foo'");
    assert_eq!(parse_ctype("Pointer()").unwrap_err(), "Unknown C type: ''");
    assert_eq!(parse_ctype("Pointer(").unwrap_err(), "Unknown C type: 'Pointer('");
}

fn value(i: Option<i64>, u: Option<u64>, s: Option<&str>) -> YamlValue {
    YamlValue { as_i64: i, as_u64: u, as_f64_bits: u.map(|x| (x as f64).to_bits()), as_str: s.map(|x| x.to_string()) }
}

fn sample() -> YamlUcif {
    YamlUcif {
        name: "libm".to_string(),
        description: None,
        version: Some((1, 2)),
        libraries: Some(vec!["m".to_string()]),
        functions: Some(vec![YamlFunc {
            name: "pow".to_string(),
            ret: "Double".to_string(),
            params: Some(vec![
                YamlParam { name: "x".to_string(), ctype: "Double".to_string() },
                YamlParam { name: "y".to_string(), ctype: "Double".to_string() },
            ]),
            is_variadic: None,
            library: Some("m".to_string()),
            convention: Some("stdcall".to_string()),
        }]),
        structs: Some(vec![YamlStruct {
            name: "div_t".to_string(),
            fields: vec![
                YamlField { name: "quot".to_string(), ctype: "Int".to_string(), offset: 0 },
                YamlField { name: "rem".to_string(), ctype: "Int".to_string(), offset: 4 },
            ],
            size: Some(8),
            alignment: None,
        }]),
        constants: Some(vec![
            YamlConstant {
                names: vec!["A".to_string(), "B".to_string()],
                ctype: "Int".to_string(),
                value: value(Some(3), Some(3), None),
            },
            YamlConstant { names: vec![], ctype: "Bogus".to_string(), value: value(None, None, None) },
            YamlConstant {
                names: vec!["P".to_string()],
                ctype: "Pointer".to_string(),
                value: value(Some(16), Some(16), None),
            },
        ]),
        typedefs: Some(vec![YamlTypedef { alias: "size_t".to_string(), ctype: "ULong".to_string() }]),
    }
}

#[test]
fn yaml_interface_compiles() {
    let f = sample().to_ucif().unwrap();
    assert_eq!(&f.magic, b"UCIF");
    assert_eq!(f.version, (1, 2));
    assert_eq!(f.description, "");
    assert_eq!(f.functions.len(), 1);
    assert_eq!(f.functions[0].params.len(), 2);
    assert_eq!(f.functions[0].convention, CallingConvention::StdCall);
    assert!(!f.functions[0].is_variadic);
    assert_eq!(f.functions[0].library, Some("m".to_string()));
    assert_eq!(f.structs[0].size, 8);
    assert_eq!(f.structs[0].alignment, 8);
    assert_eq!(f.structs[0].fields[1].offset, 4);
    let names: Vec<String> = f.constants.iter().map(|c| c.0.clone()).collect();
    assert_eq!(names, vec!["A".to_string(), "B".to_string(), "P".to_string()]);
    assert!(matches!(f.constants[1].1, CConstant::Int(3)));
    assert!(matches!(f.constants[2].1, CConstant::Pointer(16)));
    assert_eq!(f.typedefs[0].0, "size_t");
}

#[test]
fn yaml_defaults() {
    let y = YamlUcif {
        name: "x".to_string(),
        description: None,
        version: None,
        libraries: None,
        functions: None,
        structs: None,
        constants: None,
        typedefs: None,
    };
    let f = y.to_ucif().unwrap();
    assert_eq!(f.version, (0, 1));
    assert!(f.libraries.is_empty() && f.functions.is_empty() && f.constants.is_empty());
}

#[test]
fn yaml_errors() {
    let mut y = sample();
    y.typedefs = Some(vec![YamlTypedef { alias: "t".to_string(), ctype: "Nope".to_string() }]);
    assert_eq!(y.to_ucif().unwrap_err(), "Unknown C type: 'Nope'");
    let mut y = sample();
    y.constants = Some(vec![YamlConstant {
        names: vec!["S".to_string()],
        ctype: "String".to_string(),
        value: value(Some(1), Some(1), None),
    }]);
    assert_eq!(y.to_ucif().unwrap_err(), "expected string");
    let mut y = sample();
    y.constants = Some(vec![YamlConstant {
        names: vec!["Q".to_string()],
        ctype: "Quad".to_string(),
        value: value(None, None, None),
    }]);
    assert_eq!(y.to_ucif().unwrap_err(), "Unknown constant type: Quad");
    let mut y = sample();
    y.constants = Some(vec![YamlConstant {
        names: vec!["N".to_string()],
        ctype: "UInt".to_string(),
        value: value(Some(-1), None, None),
    }]);
    assert_eq!(y.to_ucif().unwrap_err(), "expected unsigned");
}
