use std::collections::HashSet;

use buidl_derive::fixed_bytes::{
    check_attributes, check_array_size, check_struct_fields, expand_fixed_bytes,
    resolve_capabilities, struct_field_names, supported_attributes, supported_derives,
    supported_skip_derives, synthesize,
};
use buidl_derive::model::{
    AliasTable, CapabilitySet, ConfigItem, FieldDef, FieldName, GenError, ImplBlock, RawAttr,
    TypeData, TypeDef, TypeShape,
};
use buidl_derive::semantics::{
    as_byte_view, cmp_instance, decode_instance, encode_instance, eq_instance, from_array,
    from_entropy_bytes, hash_input, max_encoded_len_of, reflect_instance, set_byte,
    size_hint_instance, to_array, try_from_slice, AuxValue, DataOrdering, Instance,
    TypeDescription,
};
use buidl_derive::utils::{
    alias_of, crate_access, dash_to_underscore, field_default_value, find_list_strings,
    parse_list_items, parse_top_attributes, CrateLookup,
};

fn flag(name: &str) -> ConfigItem {
    ConfigItem::Flag(name.to_string())
}

fn list(name: &str, entries: Vec<&str>) -> ConfigItem {
    ConfigItem::List(name.to_string(), entries.into_iter().map(flag).collect())
}

fn buidl_attr(items: Vec<ConfigItem>) -> RawAttr {
    RawAttr { outer: true, path: "buidl".to_string(), items: Some(items) }
}

fn u8_array(len: &str) -> TypeShape {
    TypeShape::Array(Box::new(TypeShape::Path(vec!["u8".to_string()])), len.to_string())
}

fn data_field(name: Option<&str>, len: &str) -> FieldDef {
    FieldDef { name: name.map(|n| n.to_string()), ty: u8_array(len), attrs: vec![] }
}

fn struct_input(attrs: Vec<RawAttr>, fields: Vec<FieldDef>) -> TypeDef {
    TypeDef { ident: "Bytes".to_string(), attrs, data: TypeData::Struct(fields) }
}

fn all_aliases() -> AliasTable {
    AliasTable {
        sp_core: Some("sp_core".to_string()),
        codec: Some("parity_scale_codec".to_string()),
        runtime_interface: Some("sp_runtime_interface".to_string()),
        scale_info: Some("scale_info".to_string()),
    }
}

fn inst(bytes: Vec<u8>) -> Instance {
    from_array(bytes, &vec![])
}

#[test]
fn derive_struct() {
    let input = struct_input(vec![], vec![data_field(Some("inner"), "4")]);
    let plan = expand_fixed_bytes(&input).unwrap();
    assert_eq!(plan.data_field, FieldName::Named("inner".to_string()));
    assert_eq!(plan.size, "4".to_string());

    let s = inst(vec![1, 2, 3, 4]);

    // Eq
    let s2 = inst(vec![1, 2, 3, 4]);
    assert!(eq_instance(&s, &s2));

    // Ord
    let s2 = inst(vec![2, 2, 2, 4]);
    assert_eq!(cmp_instance(&s, &s2), DataOrdering::Less);

    // From
    let a: [u8; 4] = [1, 2, 3, 4];
    let s2 = inst(a.to_vec());
    assert!(eq_instance(&s, &s2));
    assert_eq!(to_array(s2), a.to_vec());

    // TryFrom
    let s2 = try_from_slice(&a[..], 4, &vec![]).unwrap();
    assert!(eq_instance(&s, &s2));

    // AsRef
    assert_eq!(as_byte_view(&s), &a[..]);

    // AsMut
    let mut s2 = s.clone();
    set_byte(&mut s2, 2, 2);
    assert!(eq_instance(&s2, &inst(vec![1, 2, 2, 4])));

    // Clone
    let s2 = s.clone();
    assert!(eq_instance(&s, &s2));

    // Hash
    let mut map = HashSet::<Instance>::new();
    map.insert(s.clone());

    // Deref
    assert_eq!(as_byte_view(&s), &a[..]);
}

#[test]
fn derive_tuple() {
    let input = struct_input(vec![], vec![data_field(None, "4")]);
    let plan = expand_fixed_bytes(&input).unwrap();
    assert_eq!(plan.data_field, FieldName::Unnamed(0));

    let s = inst(vec![1, 2, 3, 4]);
    let s2 = inst(vec![1, 2, 3, 4]);
    assert!(eq_instance(&s, &s2));
    let s2 = inst(vec![2, 2, 2, 4]);
    assert_eq!(cmp_instance(&s, &s2), DataOrdering::Less);
    let a: [u8; 4] = [1, 2, 3, 4];
    let s2 = try_from_slice(&a[..], 4, &vec![]).unwrap();
    assert!(eq_instance(&s, &s2));
    assert_eq!(to_array(s2), a.to_vec());
    let mut s2 = s.clone();
    set_byte(&mut s2, 2, 2);
    assert!(eq_instance(&s2, &inst(vec![1, 2, 2, 4])));
    assert_eq!(as_byte_view(&s), &a[..]);
}

#[test]
fn derive_substrate() {
    // #[buidl(derive(Substrate))] on a 4-byte tuple struct: the capability
    // resolution and the emitted blocks, with every package alias resolved.
    let items = vec![list("derive", vec!["Substrate"])];
    let caps = resolve_capabilities(&items).unwrap();
    assert!(caps.byte_array && caps.pass_by && caps.codec && caps.type_info && caps.entropy);
    let blocks = synthesize(&caps, &all_aliases());
    assert!(blocks.contains(&ImplBlock::EncodeImpl { codec: "parity_scale_codec".to_string() }));

    // The generated encoding delegates to the data field: the bytes.
    let s = inst(vec![1, 2, 3, 4]);
    let encoded = encode_instance(&s);
    assert_eq!(encoded, vec![1, 2, 3, 4]);
    assert_eq!(max_encoded_len_of(4), 4);
}

#[test]
fn additional_fields() {
    // struct { inner: [u8; 4], #[buidl(default = 42)] other: u32 }
    let other = FieldDef {
        name: Some("other".to_string()),
        ty: TypeShape::Path(vec!["u32".to_string()]),
        attrs: vec![buidl_attr(vec![ConfigItem::NameValue(
            "default".to_string(),
            "42".to_string(),
        )])],
    };
    let input = struct_input(vec![], vec![data_field(Some("inner"), "4"), other]);
    let plan = expand_fixed_bytes(&input).unwrap();
    assert_eq!(plan.initializers.len(), 1);
    assert_eq!(plan.initializers[0].name, FieldName::Named("other".to_string()));
    assert_eq!(plan.initializers[0].value, Some("42".to_string()));

    // Every raw-sequence construction gives that field its configured value.
    let defaults = vec![Some("42".to_string())];
    let s = from_array(vec![1, 2, 3, 4], &defaults);
    assert_eq!(to_array(s.clone()), vec![1, 2, 3, 4]);
    assert_eq!(s.aux, vec![AuxValue::Given("42".to_string())]);
}

#[test]
fn defaulted_field_without_configuration() {
    let defaults = vec![None];
    let s = from_array(vec![7], &defaults);
    assert_eq!(s.aux, vec![AuxValue::Defaulted]);
}

#[test]
fn try_from_wrong_length_fails() {
    let a: [u8; 4] = [1, 2, 3, 4];
    assert!(try_from_slice(&a[..3], 4, &vec![]).is_err());
    assert!(try_from_slice(&a[..], 3, &vec![]).is_err());
    assert!(try_from_slice(&a[..], 4, &vec![]).is_ok());
}

#[test]
fn comparison_ignores_auxiliary_fields() {
    let plain = from_array(vec![5, 6], &vec![]);
    let with_aux = from_array(vec![5, 6], &vec![Some("true".to_string())]);
    assert!(eq_instance(&plain, &with_aux));
    assert_eq!(cmp_instance(&plain, &with_aux), DataOrdering::Equal);
    let bigger = from_array(vec![5, 7], &vec![Some("false".to_string())]);
    assert_eq!(cmp_instance(&plain, &bigger), DataOrdering::Less);
    assert_eq!(cmp_instance(&bigger, &plain), DataOrdering::Greater);
}

#[test]
fn codec_round_trip() {
    let s = from_array(vec![9, 8, 7, 6], &vec![]);
    let encoded = encode_instance(&s);
    assert_eq!(size_hint_instance(&s), 4);
    let decoded = decode_instance(&encoded[..], 4, &vec![]).unwrap();
    assert!(eq_instance(&s, &decoded));
    assert!(decode_instance(&encoded[..2], 4, &vec![]).is_err());
}

#[test]
fn entropy_construction_reads_the_source() {
    let source: [u8; 5] = [9, 8, 7, 6, 5];
    let s = from_entropy_bytes(&source[..], 4, &vec![]).unwrap();
    assert_eq!(to_array(s), vec![9, 8, 7, 6]);
    assert!(from_entropy_bytes(&source[..3], 4, &vec![]).is_err());
}

#[test]
fn unknown_enable_name_is_fatal() {
    let input = struct_input(
        vec![buidl_attr(vec![list("derive", vec!["Substrate", "Foo"])])],
        vec![data_field(Some("inner"), "4")],
    );
    match expand_fixed_bytes(&input) {
        Err(GenError::UnsupportedNames { attr, names }) => {
            assert_eq!(attr, "derive".to_string());
            assert_eq!(names, vec!["Foo".to_string()]);
        },
        other => panic!("expected the enable-list error, got {:?}", other),
    }
}

#[test]
fn unknown_skip_name_is_fatal() {
    let input = struct_input(
        vec![buidl_attr(vec![list("skip_derive", vec!["Hash", "Debug"])])],
        vec![data_field(Some("inner"), "4")],
    );
    match expand_fixed_bytes(&input) {
        Err(GenError::UnsupportedNames { attr, names }) => {
            assert_eq!(attr, "skip_derive".to_string());
            assert_eq!(names, vec!["Hash".to_string(), "Debug".to_string()]);
        },
        other => panic!("expected the skip-list error, got {:?}", other),
    }
}

#[test]
fn unknown_top_level_name_is_fatal() {
    let input = struct_input(
        vec![buidl_attr(vec![flag("banana")])],
        vec![data_field(Some("inner"), "4")],
    );
    match expand_fixed_bytes(&input) {
        Err(GenError::UnsupportedNames { attr, names }) => {
            assert_eq!(attr, "buidl".to_string());
            assert_eq!(names, vec!["banana".to_string()]);
        },
        other => panic!("expected the top-level error, got {:?}", other),
    }
}

#[test]
fn malformed_configuration_is_fatal() {
    let bad = RawAttr { outer: true, path: "buidl".to_string(), items: None };
    let input = struct_input(vec![bad], vec![data_field(Some("inner"), "4")]);
    assert_eq!(expand_fixed_bytes(&input), Err(GenError::MalformedConfig));
}

#[test]
fn shape_errors() {
    let not_struct = TypeDef { ident: "E".to_string(), attrs: vec![], data: TypeData::Enum };
    assert_eq!(expand_fixed_bytes(&not_struct), Err(GenError::NotAStruct));

    let empty = struct_input(vec![], vec![]);
    assert_eq!(expand_fixed_bytes(&empty), Err(GenError::NoFields));

    let not_bytes = FieldDef {
        name: Some("inner".to_string()),
        ty: TypeShape::Path(vec!["u32".to_string()]),
        attrs: vec![],
    };
    let input = struct_input(vec![], vec![not_bytes]);
    assert_eq!(expand_fixed_bytes(&input), Err(GenError::ExpectedByteArray));

    let wrong_elem = FieldDef {
        name: Some("inner".to_string()),
        ty: TypeShape::Array(
            Box::new(TypeShape::Path(vec!["u16".to_string()])),
            "4".to_string(),
        ),
        attrs: vec![],
    };
    let input = struct_input(vec![], vec![wrong_elem]);
    assert_eq!(expand_fixed_bytes(&input), Err(GenError::ExpectedByteArray));
}

#[test]
fn base_only_plan() {
    // No configuration at all: the base group alone, no aliases resolved.
    let input = struct_input(vec![], vec![data_field(Some("inner"), "4")]);
    let plan = expand_fixed_bytes(&input).unwrap();
    assert_eq!(plan.ident, "Bytes".to_string());
    assert_eq!(plan.aliases.sp_core, None);
    assert_eq!(plan.aliases.codec, None);
    assert_eq!(plan.aliases.runtime_interface, None);
    assert_eq!(plan.aliases.scale_info, None);
    assert_eq!(
        plan.blocks,
        vec![
            ImplBlock::CloneImpl,
            ImplBlock::PartialEqImpl,
            ImplBlock::EqImpl,
            ImplBlock::PartialOrdImpl,
            ImplBlock::OrdImpl,
            ImplBlock::FromArrayImpl,
            ImplBlock::TryFromSliceImpl,
            ImplBlock::IntoArrayImpl,
            ImplBlock::AsRefImpl,
            ImplBlock::AsMutImpl,
            ImplBlock::HashImpl,
            ImplBlock::DerefImpl,
            ImplBlock::DerefMutImpl,
        ]
    );
}

#[test]
fn skipping_clone_removes_the_block() {
    let input = struct_input(
        vec![buidl_attr(vec![list("skip_derive", vec!["Clone"])])],
        vec![data_field(Some("inner"), "4")],
    );
    let plan = expand_fixed_bytes(&input).unwrap();
    assert!(!plan.blocks.contains(&ImplBlock::CloneImpl));
    assert_eq!(plan.blocks[0], ImplBlock::PartialEqImpl);
}

#[test]
fn substrate_with_codec_skipped() {
    // Extended integration enabled, serialization explicitly skipped: the
    // serialization operations are absent, identity/sizing and calling
    // convention are present, and entropy construction is omitted silently.
    let items = vec![
        list("derive", vec!["Substrate"]),
        list("skip_derive", vec!["Codec"]),
    ];
    let caps = resolve_capabilities(&items).unwrap();
    assert!(caps.byte_array && caps.pass_by && caps.type_info);
    assert!(!caps.codec && !caps.entropy);

    let aliases = AliasTable {
        sp_core: Some("sp_core".to_string()),
        codec: None,
        runtime_interface: Some("sp_runtime_interface".to_string()),
        scale_info: Some("scale_info".to_string()),
    };
    let blocks = synthesize(&caps, &aliases);
    let has = |b: &ImplBlock| blocks.contains(b);
    assert!(has(&ImplBlock::ByteArrayImpl { sp_core: "sp_core".to_string() }));
    assert!(has(&ImplBlock::UncheckedFromImpl { sp_core: "sp_core".to_string() }));
    assert!(has(&ImplBlock::PassByInnerImpl {
        runtime_interface: "sp_runtime_interface".to_string()
    }));
    assert!(has(&ImplBlock::PassByImpl {
        runtime_interface: "sp_runtime_interface".to_string()
    }));
    assert!(has(&ImplBlock::TypeInfoImpl { scale_info: "scale_info".to_string() }));
    for b in &blocks {
        assert!(!matches!(
            b,
            ImplBlock::EncodeImpl { .. }
                | ImplBlock::EncodeLikeImpl { .. }
                | ImplBlock::DecodeImpl { .. }
                | ImplBlock::MaxEncodedLenImpl { .. }
                | ImplBlock::FromEntropyImpl { .. }
        ));
    }
}

#[test]
fn bare_derive_flag_enables_every_sub_group() {
    // The extended keyword as a bare flag on a 4-byte type: every sub-group
    // active, the size constant is the array's length, and the maximum
    // encoded length equals it.
    let input = struct_input(
        vec![buidl_attr(vec![flag("derive")])],
        vec![data_field(Some("inner"), "4")],
    );
    let fields = match &input.data {
        TypeData::Struct(fields) => fields,
        _ => unreachable!(),
    };
    assert_eq!(check_array_size(&fields[0].ty).unwrap(), &"4".to_string());

    let items = vec![flag("derive")];
    let caps = resolve_capabilities(&items).unwrap();
    assert_eq!(
        caps,
        CapabilitySet {
            cloning: true,
            byte_array: true,
            pass_by: true,
            codec: true,
            type_info: true,
            entropy: true,
        }
    );
    let blocks = synthesize(&caps, &all_aliases());
    assert_eq!(blocks.len(), 13 + 2 + 1 + 2 + 4 + 1);
    assert_eq!(max_encoded_len_of(4), 4);
}

#[test]
fn individual_sub_groups_can_be_enabled() {
    let items = vec![list("derive", vec!["Codec", "TypeInfo"])];
    let caps = resolve_capabilities(&items).unwrap();
    assert!(caps.codec && caps.type_info);
    assert!(!caps.byte_array && !caps.pass_by && !caps.entropy);
    assert!(caps.cloning);
}

#[test]
fn skip_always_wins_over_enable() {
    let items = vec![
        list("derive", vec!["Codec"]),
        list("skip_derive", vec!["Codec"]),
    ];
    let caps = resolve_capabilities(&items).unwrap();
    assert!(!caps.codec && !caps.entropy);
}

#[test]
fn check_attributes_lists_every_offender() {
    let items = vec!["Clone".to_string(), "Foo".to_string(), "Bar".to_string()];
    let sup = supported_skip_derives();
    match check_attributes("skip_derive", &items, &sup) {
        Err(GenError::UnsupportedNames { attr, names }) => {
            assert_eq!(attr, "skip_derive".to_string());
            assert_eq!(names, vec!["Foo".to_string(), "Bar".to_string()]);
        },
        other => panic!("expected an error, got {:?}", other),
    }
    assert!(check_attributes("skip_derive", &vec!["Clone".to_string()], &sup).is_ok());
}

#[test]
fn allow_lists_hold_the_recognized_names() {
    assert_eq!(supported_attributes(), vec!["derive", "skip_derive"]);
    assert_eq!(
        supported_derives(),
        vec!["Substrate", "ByteArray", "PassBy", "Codec", "TypeInfo"]
    );
    assert_eq!(supported_skip_derives(), vec!["Clone", "Codec", "PassBy", "TypeInfo"]);
}

#[test]
fn configuration_scanning() {
    // The first outer configuration attribute governs; others are ignored.
    let inner_attr = RawAttr { outer: false, path: "buidl".to_string(), items: None };
    let other_attr = RawAttr { outer: true, path: "derive".to_string(), items: None };
    let config = buidl_attr(vec![flag("derive")]);
    let input = TypeDef {
        ident: "T".to_string(),
        attrs: vec![inner_attr, other_attr, config],
        data: TypeData::Struct(vec![data_field(None, "2")]),
    };
    let items = parse_top_attributes(&input).unwrap().unwrap();
    assert_eq!(items, &vec![flag("derive")]);

    let bare = TypeDef {
        ident: "T".to_string(),
        attrs: vec![],
        data: TypeData::Struct(vec![data_field(None, "2")]),
    };
    assert_eq!(parse_top_attributes(&bare).unwrap(), None);
}

#[test]
fn list_reading() {
    let item = list("derive", vec!["Substrate", "Codec"]);
    let entries = parse_list_items(&item).unwrap();
    assert_eq!(entries.len(), 2);
    assert_eq!(parse_list_items(&flag("derive")), None);

    let items = vec![flag("other"), list("derive", vec!["Codec"])];
    assert_eq!(find_list_strings(&items, "derive"), vec!["Codec".to_string()]);
    assert_eq!(find_list_strings(&items, "skip_derive"), Vec::<String>::new());
}

#[test]
fn field_defaults_are_recognized() {
    let field = FieldDef {
        name: Some("other".to_string()),
        ty: TypeShape::Other,
        attrs: vec![buidl_attr(vec![ConfigItem::NameValue(
            "default".to_string(),
            "true".to_string(),
        )])],
    };
    assert_eq!(field_default_value(&field), Some("true".to_string()));

    let plain = FieldDef { name: None, ty: TypeShape::Other, attrs: vec![] };
    assert_eq!(field_default_value(&plain), None);

    // An argument list that is not the single `default = value` pair carries
    // no default.
    let odd = FieldDef {
        name: None,
        ty: TypeShape::Other,
        attrs: vec![buidl_attr(vec![
            ConfigItem::NameValue("default".to_string(), "1".to_string()),
            flag("extra"),
        ])],
    };
    assert_eq!(field_default_value(&odd), None);
}

#[test]
fn shape_analysis() {
    let fields = vec![data_field(Some("inner"), "N"), data_field(None, "4")];
    let data = TypeData::Struct(fields);
    let got = check_struct_fields(&data).unwrap();
    assert_eq!(got.len(), 2);
    let names = struct_field_names(got);
    assert_eq!(
        names,
        vec![FieldName::Named("inner".to_string()), FieldName::Unnamed(1)]
    );
    // A const-generic length is carried through as its expression text.
    assert_eq!(check_array_size(&got[0].ty).unwrap(), &"N".to_string());

    assert_eq!(check_struct_fields(&TypeData::Union), Err(GenError::NotAStruct));
}

#[test]
fn alias_resolution() {
    assert_eq!(dash_to_underscore("sp-core"), "sp_core".to_string());
    assert_eq!(dash_to_underscore("plain"), "plain".to_string());
    // A package that no manifest of this crate names cannot be located.
    assert_eq!(
        crate_access("definitely-not-a-dependency"),
        Err(GenError::MissingDependency { package: "definitely-not-a-dependency".to_string() })
    );
}

#[test]
fn error_messages_name_the_offenders() {
    let e = GenError::UnsupportedNames {
        attr: "derive".to_string(),
        names: vec!["Foo".to_string(), "Bar".to_string()],
    };
    assert_eq!(e.describe(), "`derive` doesn't support [\"Foo\", \"Bar\"]");
    let one = GenError::UnsupportedNames {
        attr: "buidl".to_string(),
        names: vec!["banana".to_string()],
    };
    assert_eq!(one.describe(), "`buidl` doesn't support [\"banana\"]");
    let missing = GenError::MissingDependency { package: "sp-core".to_string() };
    assert_eq!(missing.describe(), "should have `sp-core` in dependencies");
    assert_eq!(GenError::NotAStruct.describe(), "`struct` expected");
    assert_eq!(GenError::NoFields.describe(), "no fields");
    assert_eq!(GenError::ExpectedByteArray.describe(), "expected u8 array");
}

#[test]
fn zero_length_data_field() {
    // A compile-time length of zero is a valid shape.
    let empty: [u8; 0] = [];
    let s = try_from_slice(&empty[..], 0, &vec![]).unwrap();
    assert_eq!(to_array(s.clone()), Vec::<u8>::new());
    assert_eq!(cmp_instance(&s, &inst(vec![])), DataOrdering::Equal);
    assert_eq!(cmp_instance(&s, &inst(vec![1])), DataOrdering::Less);
    assert_eq!(encode_instance(&s), Vec::<u8>::new());
    assert_eq!(max_encoded_len_of(0), 0);
}

#[test]
fn dashes_become_underscores() {
    assert_eq!(dash_to_underscore("sp-runtime-interface"), "sp_runtime_interface".to_string());
    assert_eq!(dash_to_underscore(""), "".to_string());
}

#[test]
fn hashing_reads_the_data_field_alone() {
    let plain = from_array(vec![3, 1, 4], &vec![]);
    let with_aux = from_array(vec![3, 1, 4], &vec![Some("42".to_string()), None]);
    assert_eq!(hash_input(&plain), &[3, 1, 4][..]);
    assert_eq!(hash_input(&plain), hash_input(&with_aux));
}

#[test]
fn reflection_is_an_alias_of_the_inner_array() {
    let s = from_array(vec![1, 2, 3, 4], &vec![Some("42".to_string())]);
    let description = reflect_instance(&s);
    assert_eq!(description, TypeDescription::ByteArrayAlias { len: 4 });
    assert!(!matches!(description, TypeDescription::Composite { .. }));
}

#[test]
fn alias_mapping_per_lookup_outcome() {
    assert_eq!(
        alias_of(CrateLookup::Itself, "sp-core"),
        Ok("sp_core".to_string())
    );
    assert_eq!(
        alias_of(CrateLookup::Renamed("old_codec".to_string()), "parity-scale-codec"),
        Ok("old_codec".to_string())
    );
    assert_eq!(
        alias_of(CrateLookup::Missing, "scale-info"),
        Err(GenError::MissingDependency { package: "scale-info".to_string() })
    );
}

#[test]
fn shape_errors_precede_naming_errors() {
    // Stage order: the Field Analyzer runs before the Capability Resolver,
    // so a doubly-invalid input gets the shape error.
    let not_struct = TypeDef {
        ident: "E".to_string(),
        attrs: vec![buidl_attr(vec![flag("banana")])],
        data: TypeData::Enum,
    };
    assert_eq!(expand_fixed_bytes(&not_struct), Err(GenError::NotAStruct));

    let bad_field = FieldDef {
        name: Some("inner".to_string()),
        ty: TypeShape::Path(vec!["u32".to_string()]),
        attrs: vec![],
    };
    let input = struct_input(
        vec![buidl_attr(vec![list("derive", vec!["Foo"])])],
        vec![bad_field],
    );
    assert_eq!(expand_fixed_bytes(&input), Err(GenError::ExpectedByteArray));
}
