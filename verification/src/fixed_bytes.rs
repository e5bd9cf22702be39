//! The generation engine: validation of the annotated type's shape,
//! validation of the configuration against the allow-lists, resolution of
//! the active capability groups, and synthesis of the implementation plan.

use vstd::prelude::*;

use crate::model::{
    AliasTable, CapabilitySet, ConfigItem, FieldDef, FieldName, GenError, ImplBlock, TypeData,
    TypeShape,
};
use crate::model::{FieldInit, GenPlan, TypeDef};
use crate::utils::{
    crate_access, entry_names, field_default_value, find_list_strings, find_named, item_names,
    names_of, parse_top_attributes, spec_entry_names, spec_field_default, spec_first_config_attr,
    spec_first_named, string_is,
};

verus! {

/// The views of a list of literal names.
pub open spec fn strs_of(v: Seq<&str>) -> Seq<Seq<char>> {
    v.map_values(|t: &str| t@)
}

/// The names recognized at the top level of the configuration.
pub open spec fn spec_supported_attributes() -> Seq<Seq<char>> {
    seq!["derive"@, "skip_derive"@]
}

/// The names recognized inside the enable list: the extended integration as
/// a whole, or one of its four sub-groups.
pub open spec fn spec_supported_derives() -> Seq<Seq<char>> {
    seq!["Substrate"@, "ByteArray"@, "PassBy"@, "Codec"@, "TypeInfo"@]
}

/// The names recognized inside the skip list.
pub open spec fn spec_supported_skip_derives() -> Seq<Seq<char>> {
    seq!["Clone"@, "Codec"@, "PassBy"@, "TypeInfo"@]
}

/// The top-level configuration allow-list.
pub fn supported_attributes() -> (r: Vec<&'static str>)
    ensures
        strs_of(r@) == spec_supported_attributes(),
{
    let mut v: Vec<&'static str> = Vec::new();
    v.push("derive");
    v.push("skip_derive");
    proof {
        assert(strs_of(v@) =~= spec_supported_attributes());
    }
    v
}

/// The enable-list allow-list.
pub fn supported_derives() -> (r: Vec<&'static str>)
    ensures
        strs_of(r@) == spec_supported_derives(),
{
    let mut v: Vec<&'static str> = Vec::new();
    v.push("Substrate");
    v.push("ByteArray");
    v.push("PassBy");
    v.push("Codec");
    v.push("TypeInfo");
    proof {
        assert(strs_of(v@) =~= spec_supported_derives());
    }
    v
}

/// The skip-list allow-list.
pub fn supported_skip_derives() -> (r: Vec<&'static str>)
    ensures
        strs_of(r@) == spec_supported_skip_derives(),
{
    let mut v: Vec<&'static str> = Vec::new();
    v.push("Clone");
    v.push("Codec");
    v.push("PassBy");
    v.push("TypeInfo");
    proof {
        assert(strs_of(v@) =~= spec_supported_skip_derives());
    }
    v
}

/// The names among `names` that are outside `supported`, in order.
pub open spec fn spec_unsupported(names: Seq<Seq<char>>, supported: Seq<Seq<char>>) -> Seq<
    Seq<char>,
>
    decreases names.len(),
{
    if names.len() == 0 {
        Seq::empty()
    } else {
        let rest = spec_unsupported(names.drop_first(), supported);
        if supported.contains(names[0]) {
            rest
        } else {
            seq![names[0]] + rest
        }
    }
}

/// Whether a name stands in an allow-list.
fn is_supported(supported: &Vec<&str>, name: &String) -> (r: bool)
    ensures
        r == strs_of(supported@).contains(name@),
{
    let n = supported.len();
    let mut i: usize = 0;
    while i < n
        invariant
            i <= n,
            n == supported@.len(),
            forall|j: int| 0 <= j < i ==> strs_of(supported@)[j] != name@,
        decreases n - i,
    {
        let s: &str = supported[i];
        let l: String = String::from_str(s);
        if l.eq(name) {
            proof {
                assert(strs_of(supported@)[i as int] == name@);
            }
            return true;
        }
        i = i + 1;
    }
    proof {
        if strs_of(supported@).contains(name@) {
            let j = choose|j: int| 0 <= j < strs_of(supported@).len() && strs_of(supported@)[j]
                == name@;
            assert(strs_of(supported@)[j] != name@);
        }
    }
    false
}

/// Validates `items` against an allow-list: every name outside it is a fatal
/// error, and the error lists every offender, in order.
pub fn check_attributes(attr: &str, items: &Vec<String>, supported: &Vec<&str>) -> (r: Result<
    (),
    GenError,
>)
    ensures
        r is Ok <==> spec_unsupported(names_of(items@), strs_of(supported@)).len() == 0,
        r matches Err(e) ==> e matches GenError::UnsupportedNames { attr: a, names: ns }
            && a@ == attr@ && names_of(ns@) == spec_unsupported(
            names_of(items@),
            strs_of(supported@),
        ),
{
    let ghost all = names_of(items@);
    let ghost sup = strs_of(supported@);
    let n = items.len();
    let mut off: Vec<String> = Vec::new();
    proof {
        assert(all.skip(0) =~= all);
        assert(names_of(off@) + spec_unsupported(all.skip(0), sup) =~= spec_unsupported(all, sup));
    }
    let mut i: usize = 0;
    while i < n
        invariant
            i <= n,
            n == items@.len(),
            all == names_of(items@),
            sup == strs_of(supported@),
            names_of(off@) + spec_unsupported(all.skip(i as int), sup) =~= spec_unsupported(
                all,
                sup,
            ),
        decreases n - i,
    {
        proof {
            assert(all.skip(i as int)[0] == all[i as int]);
            assert(all[i as int] == items@[i as int]@);
            assert(all.skip(i as int).drop_first() =~= all.skip(i as int + 1));
        }
        if !is_supported(supported, &items[i]) {
            let ghost prev = off@;
            off.push(items[i].clone());
            proof {
                crate::utils::lemma_names_of_push(prev, off@[off@.len() - 1]);
                assert(names_of(off@) =~= names_of(prev) + seq![all[i as int]]);
                assert(names_of(off@) + spec_unsupported(all.skip(i as int + 1), sup)
                    =~= spec_unsupported(all, sup));
            }
        }
        i = i + 1;
    }
    proof {
        assert(all.skip(n as int) =~= Seq::<Seq<char>>::empty());
        assert(names_of(off@) + spec_unsupported(all.skip(n as int), sup) =~= names_of(off@));
        assert(names_of(off@) =~= spec_unsupported(all, sup));
    }
    if off.len() == 0 {
        proof {
            assert(names_of(off@) =~= Seq::<Seq<char>>::empty());
        }
        Ok(())
    } else {
        proof {
            assert(names_of(off@).len() == off@.len());
        }
        Err(GenError::UnsupportedNames { attr: String::from_str(attr), names: off })
    }
}

/// Checks that the annotated type is a struct with at least one field, and
/// hands its field list back.
pub fn check_struct_fields<'a>(data: &'a TypeData) -> (r: Result<&'a Vec<FieldDef>, GenError>)
    ensures
        match data {
            TypeData::Struct(fields) => {
                if fields@.len() == 0 {
                    r matches Err(e) && e == GenError::NoFields
                } else {
                    r matches Ok(v) && *v == fields
                }
            },
            _ => r matches Err(e) && e == GenError::NotAStruct,
        },
{
    match data {
        TypeData::Struct(fields) => {
            if fields.len() == 0 {
                Err(GenError::NoFields)
            } else {
                Ok(fields)
            }
        },
        _ => Err(GenError::NotAStruct),
    }
}

/// The uniform name of the field at position `i`.
pub open spec fn spec_field_name(i: int, f: FieldDef) -> FieldName {
    match f.name {
        Some(n) => FieldName::Named(n),
        None => FieldName::Unnamed(i as usize),
    }
}

/// The uniform names of all fields, in declaration order.
pub fn struct_field_names(fields: &Vec<FieldDef>) -> (r: Vec<FieldName>)
    ensures
        r@.len() == fields@.len(),
        forall|j: int| 0 <= j < fields@.len() ==> r@[j] == spec_field_name(j, fields@[j]),
{
    let n = fields.len();
    let mut out: Vec<FieldName> = Vec::new();
    let mut i: usize = 0;
    while i < n
        invariant
            i <= n,
            n == fields@.len(),
            out@.len() == i,
            forall|j: int| 0 <= j < i ==> out@[j] == spec_field_name(j, fields@[j]),
        decreases n - i,
    {
        match &fields[i].name {
            Some(nm) => out.push(FieldName::Named(nm.clone())),
            None => out.push(FieldName::Unnamed(i)),
        }
        i = i + 1;
    }
    out
}

/// Whether a shape is a path whose first segment is `u8`.
pub open spec fn spec_is_u8_path(t: TypeShape) -> bool {
    match t {
        TypeShape::Path(segs) => segs@.len() > 0 && segs@[0]@ == "u8"@,
        _ => false,
    }
}

/// The length expression of a fixed-length `u8` array shape, if it is one.
pub open spec fn spec_byte_array_len(t: TypeShape) -> Option<String> {
    match t {
        TypeShape::Array(elem, len) => {
            if spec_is_u8_path(*elem) {
                Some(len)
            } else {
                None
            }
        },
        _ => None,
    }
}

/// Checks that the data field's type is a fixed-length `u8` array and hands
/// back the text of its length expression.
pub fn check_array_size<'a>(ty: &'a TypeShape) -> (r: Result<&'a String, GenError>)
    ensures
        match spec_byte_array_len(*ty) {
            Some(l) => r matches Ok(v) && *v == l,
            None => r matches Err(e) && e == GenError::ExpectedByteArray,
        },
{
    match ty {
        TypeShape::Array(elem, len) => {
            match &**elem {
                TypeShape::Path(segs) => {
                    if segs.len() > 0 && string_is(&segs[0], "u8") {
                        Ok(len)
                    } else {
                        Err(GenError::ExpectedByteArray)
                    }
                },
                _ => Err(GenError::ExpectedByteArray),
            }
        },
        _ => Err(GenError::ExpectedByteArray),
    }
}

/// Whether the enable entry is the bare flag, which enables the whole
/// extended integration.
pub open spec fn spec_derive_bare(items: Seq<ConfigItem>) -> bool {
    spec_first_named(items, "derive"@) matches Some(it) && it matches ConfigItem::Flag(_)
}

/// The names in the enable list.
pub open spec fn spec_derive_entries(items: Seq<ConfigItem>) -> Seq<Seq<char>> {
    spec_entry_names(items, "derive"@)
}

/// The names in the skip list.
pub open spec fn spec_skip_entries(items: Seq<ConfigItem>) -> Seq<Seq<char>> {
    spec_entry_names(items, "skip_derive"@)
}

/// Whether every extended sub-group is enabled at once: the enable keyword
/// stands bare, or its list names the extended integration itself.
pub open spec fn spec_extended_all(items: Seq<ConfigItem>) -> bool {
    spec_derive_bare(items) || spec_derive_entries(items).contains("Substrate"@)
}

/// Whether the sub-group called `name` is enabled (before skips).
pub open spec fn spec_enabled(items: Seq<ConfigItem>, name: Seq<char>) -> bool {
    spec_extended_all(items) || spec_derive_entries(items).contains(name)
}

/// Whether the behavior called `name` is explicitly skipped.
pub open spec fn spec_skipped(items: Seq<ConfigItem>, name: Seq<char>) -> bool {
    spec_skip_entries(items).contains(name)
}

/// The capability set resolved from the type-level configuration entries:
/// the base group is always on, cloning unless skipped; each extended
/// sub-group when enabled and not skipped, a skip always winning over an
/// enable; identity/sizing has no skip name; entropy construction when both
/// identity/sizing and serialization are active.
pub open spec fn spec_capabilities(items: Seq<ConfigItem>) -> CapabilitySet {
    let ba = spec_enabled(items, "ByteArray"@);
    let co = spec_enabled(items, "Codec"@) && !spec_skipped(items, "Codec"@);
    CapabilitySet {
        cloning: !spec_skipped(items, "Clone"@),
        byte_array: ba,
        pass_by: spec_enabled(items, "PassBy"@) && !spec_skipped(items, "PassBy"@),
        codec: co,
        type_info: spec_enabled(items, "TypeInfo"@) && !spec_skipped(items, "TypeInfo"@),
        entropy: ba && co,
    }
}

/// Whether a list of collected names holds `lit`.
fn contains_string(list: &Vec<String>, lit: &str) -> (r: bool)
    ensures
        r == names_of(list@).contains(lit@),
{
    let n = list.len();
    let mut i: usize = 0;
    while i < n
        invariant
            i <= n,
            n == list@.len(),
            forall|j: int| 0 <= j < i ==> names_of(list@)[j] != lit@,
        decreases n - i,
    {
        if string_is(&list[i], lit) {
            proof {
                assert(names_of(list@)[i as int] == lit@);
            }
            return true;
        }
        i = i + 1;
    }
    proof {
        if names_of(list@).contains(lit@) {
            let j = choose|j: int| 0 <= j < names_of(list@).len() && names_of(list@)[j] == lit@;
            assert(names_of(list@)[j] != lit@);
        }
    }
    false
}

/// Resolves the active capability groups from the type-level configuration,
/// validating the enable list and then the skip list against their
/// allow-lists; any unrecognized name is fatal.
pub fn resolve_capabilities(items: &Vec<ConfigItem>) -> (r: Result<CapabilitySet, GenError>)
    ensures
        r is Ok <==> (spec_unsupported(spec_derive_entries(items@), spec_supported_derives()).len()
            == 0 && spec_unsupported(
            spec_skip_entries(items@),
            spec_supported_skip_derives(),
        ).len() == 0),
        r matches Ok(c) ==> c == spec_capabilities(items@) && c.wf(),
        r matches Err(e) ==> e matches GenError::UnsupportedNames { attr, names } && ({
            let doff = spec_unsupported(spec_derive_entries(items@), spec_supported_derives());
            let soff = spec_unsupported(spec_skip_entries(items@), spec_supported_skip_derives());
            if doff.len() > 0 {
                attr@ == "derive"@ && names_of(names@) == doff
            } else {
                attr@ == "skip_derive"@ && names_of(names@) == soff && soff.len() > 0
            }
        }),
{
    let derive_list = find_list_strings(items, "derive");
    let sd = supported_derives();
    match check_attributes("derive", &derive_list, &sd) {
        Ok(()) => {},
        Err(e) => {
            return Err(e);
        },
    }
    let skip_list = find_list_strings(items, "skip_derive");
    let ss = supported_skip_derives();
    match check_attributes("skip_derive", &skip_list, &ss) {
        Ok(()) => {},
        Err(e) => {
            return Err(e);
        },
    }
    let bare: bool = match find_named(items, "derive") {
        Some(item) => match item {
            ConfigItem::Flag(_) => true,
            _ => false,
        },
        None => false,
    };
    let all = bare || contains_string(&derive_list, "Substrate");
    let ba = all || contains_string(&derive_list, "ByteArray");
    let pb = (all || contains_string(&derive_list, "PassBy")) && !contains_string(
        &skip_list,
        "PassBy",
    );
    let co = (all || contains_string(&derive_list, "Codec")) && !contains_string(
        &skip_list,
        "Codec",
    );
    let ti = (all || contains_string(&derive_list, "TypeInfo")) && !contains_string(
        &skip_list,
        "TypeInfo",
    );
    let cl = !contains_string(&skip_list, "Clone");
    let caps = CapabilitySet {
        cloning: cl,
        byte_array: ba,
        pass_by: pb,
        codec: co,
        type_info: ti,
        entropy: ba && co,
    };
    proof {
        assert(caps == spec_capabilities(items@));
    }
    Ok(caps)
}

/// Resolves the alias of each external package that an active group
/// references; a package that cannot be located is fatal.
pub fn resolve_aliases(caps: &CapabilitySet) -> (r: Result<AliasTable, GenError>)
    requires
        caps.wf(),
    ensures
        r matches Ok(t) ==> (t.sp_core is Some <==> caps.byte_array) && (t.codec is Some
            <==> caps.codec) && (t.runtime_interface is Some <==> caps.pass_by) && (t.scale_info
            is Some <==> caps.type_info) && t.covers(*caps),
        r matches Err(e) ==> e matches GenError::MissingDependency { package } && ((package@
            == "sp-core"@ && caps.byte_array) || (package@ == "parity-scale-codec"@ && caps.codec)
            || (package@ == "sp-runtime-interface"@ && caps.pass_by) || (package@ == "scale-info"@
            && caps.type_info)),
{
    let sp_core: Option<String> = if caps.byte_array {
        match crate_access("sp-core") {
            Ok(s) => Some(s),
            Err(e) => {
                return Err(e);
            },
        }
    } else {
        None
    };
    let codec: Option<String> = if caps.codec {
        match crate_access("parity-scale-codec") {
            Ok(s) => Some(s),
            Err(e) => {
                return Err(e);
            },
        }
    } else {
        None
    };
    let runtime_interface: Option<String> = if caps.pass_by {
        match crate_access("sp-runtime-interface") {
            Ok(s) => Some(s),
            Err(e) => {
                return Err(e);
            },
        }
    } else {
        None
    };
    let scale_info: Option<String> = if caps.type_info {
        match crate_access("scale-info") {
            Ok(s) => Some(s),
            Err(e) => {
                return Err(e);
            },
        }
    } else {
        None
    };
    Ok(AliasTable { sp_core, codec, runtime_interface, scale_info })
}

/// The base group's blocks: cloning unless skipped, then equality, ordering,
/// the conversions, borrowing, hashing and transparent access, all delegated
/// to the data field.
pub open spec fn spec_base_blocks(c: CapabilitySet) -> Seq<ImplBlock> {
    (if c.cloning {
        seq![ImplBlock::CloneImpl]
    } else {
        Seq::empty()
    }) + seq![
        ImplBlock::PartialEqImpl,
        ImplBlock::EqImpl,
        ImplBlock::PartialOrdImpl,
        ImplBlock::OrdImpl,
        ImplBlock::FromArrayImpl,
        ImplBlock::TryFromSliceImpl,
        ImplBlock::IntoArrayImpl,
        ImplBlock::AsRefImpl,
        ImplBlock::AsMutImpl,
        ImplBlock::HashImpl,
        ImplBlock::DerefImpl,
        ImplBlock::DerefMutImpl,
    ]
}

/// The identity/sizing blocks, when active.
pub open spec fn spec_identity_blocks(c: CapabilitySet, t: AliasTable) -> Seq<ImplBlock> {
    if c.byte_array {
        seq![
            (ImplBlock::ByteArrayImpl { sp_core: t.sp_core->0 }),
            (ImplBlock::UncheckedFromImpl { sp_core: t.sp_core->0 }),
        ]
    } else {
        Seq::empty()
    }
}

/// The entropy-construction block, when active.
pub open spec fn spec_entropy_blocks(c: CapabilitySet, t: AliasTable) -> Seq<ImplBlock> {
    if c.entropy {
        seq![(ImplBlock::FromEntropyImpl { sp_core: t.sp_core->0, codec: t.codec->0 })]
    } else {
        Seq::empty()
    }
}

/// The calling-convention blocks, when active.
pub open spec fn spec_pass_by_blocks(c: CapabilitySet, t: AliasTable) -> Seq<ImplBlock> {
    if c.pass_by {
        seq![
            (ImplBlock::PassByInnerImpl { runtime_interface: t.runtime_interface->0 }),
            (ImplBlock::PassByImpl { runtime_interface: t.runtime_interface->0 }),
        ]
    } else {
        Seq::empty()
    }
}

/// The serialization blocks, when active.
pub open spec fn spec_codec_blocks(c: CapabilitySet, t: AliasTable) -> Seq<ImplBlock> {
    if c.codec {
        seq![
            (ImplBlock::EncodeImpl { codec: t.codec->0 }),
            (ImplBlock::EncodeLikeImpl { codec: t.codec->0 }),
            (ImplBlock::DecodeImpl { codec: t.codec->0 }),
            (ImplBlock::MaxEncodedLenImpl { codec: t.codec->0 }),
        ]
    } else {
        Seq::empty()
    }
}

/// The reflection block, when active.
pub open spec fn spec_type_info_blocks(c: CapabilitySet, t: AliasTable) -> Seq<ImplBlock> {
    if c.type_info {
        seq![(ImplBlock::TypeInfoImpl { scale_info: t.scale_info->0 })]
    } else {
        Seq::empty()
    }
}

/// The extended sub-groups' blocks, each emitted only when active, in a
/// fixed order: identity/sizing, entropy construction, calling convention,
/// serialization, reflection.
pub open spec fn spec_extended_blocks(c: CapabilitySet, t: AliasTable) -> Seq<ImplBlock> {
    spec_identity_blocks(c, t) + spec_entropy_blocks(c, t) + spec_pass_by_blocks(c, t)
        + spec_codec_blocks(c, t) + spec_type_info_blocks(c, t)
}

/// The whole generated output for one type, as a sequence of blocks.
pub open spec fn spec_synthesize(c: CapabilitySet, t: AliasTable) -> Seq<ImplBlock> {
    spec_base_blocks(c) + spec_extended_blocks(c, t)
}

/// Emits the base group's blocks.
fn base_blocks(caps: &CapabilitySet) -> (r: Vec<ImplBlock>)
    ensures
        r@ == spec_base_blocks(*caps),
{
    let mut v: Vec<ImplBlock> = Vec::new();
    if caps.cloning {
        v.push(ImplBlock::CloneImpl);
    }
    v.push(ImplBlock::PartialEqImpl);
    v.push(ImplBlock::EqImpl);
    v.push(ImplBlock::PartialOrdImpl);
    v.push(ImplBlock::OrdImpl);
    v.push(ImplBlock::FromArrayImpl);
    v.push(ImplBlock::TryFromSliceImpl);
    v.push(ImplBlock::IntoArrayImpl);
    v.push(ImplBlock::AsRefImpl);
    v.push(ImplBlock::AsMutImpl);
    v.push(ImplBlock::HashImpl);
    v.push(ImplBlock::DerefImpl);
    v.push(ImplBlock::DerefMutImpl);
    proof {
        assert(v@ =~= spec_base_blocks(*caps));
    }
    v
}

/// Emits the identity/sizing blocks.
fn identity_blocks(caps: &CapabilitySet, aliases: &AliasTable) -> (r: Vec<ImplBlock>)
    requires
        aliases.covers(*caps),
    ensures
        r@ == spec_identity_blocks(*caps, *aliases),
{
    let mut v: Vec<ImplBlock> = Vec::new();
    if caps.byte_array {
        match &aliases.sp_core {
            Some(sp) => {
                v.push(ImplBlock::ByteArrayImpl { sp_core: sp.clone() });
                v.push(ImplBlock::UncheckedFromImpl { sp_core: sp.clone() });
            },
            None => {
                proof {
                    assert(false);
                }
            },
        }
    }
    proof {
        assert(v@ =~= spec_identity_blocks(*caps, *aliases));
    }
    v
}

/// Emits the entropy-construction block.
fn entropy_blocks(caps: &CapabilitySet, aliases: &AliasTable) -> (r: Vec<ImplBlock>)
    requires
        aliases.covers(*caps),
    ensures
        r@ == spec_entropy_blocks(*caps, *aliases),
{
    let mut v: Vec<ImplBlock> = Vec::new();
    if caps.entropy {
        match (&aliases.sp_core, &aliases.codec) {
            (Some(sp), Some(co)) => {
                v.push(ImplBlock::FromEntropyImpl { sp_core: sp.clone(), codec: co.clone() });
            },
            _ => {
                proof {
                    assert(false);
                }
            },
        }
    }
    proof {
        assert(v@ =~= spec_entropy_blocks(*caps, *aliases));
    }
    v
}

/// Emits the calling-convention blocks.
fn pass_by_blocks(caps: &CapabilitySet, aliases: &AliasTable) -> (r: Vec<ImplBlock>)
    requires
        aliases.covers(*caps),
    ensures
        r@ == spec_pass_by_blocks(*caps, *aliases),
{
    let mut v: Vec<ImplBlock> = Vec::new();
    if caps.pass_by {
        match &aliases.runtime_interface {
            Some(ri) => {
                v.push(ImplBlock::PassByInnerImpl { runtime_interface: ri.clone() });
                v.push(ImplBlock::PassByImpl { runtime_interface: ri.clone() });
            },
            None => {
                proof {
                    assert(false);
                }
            },
        }
    }
    proof {
        assert(v@ =~= spec_pass_by_blocks(*caps, *aliases));
    }
    v
}

/// Emits the serialization blocks.
fn codec_blocks(caps: &CapabilitySet, aliases: &AliasTable) -> (r: Vec<ImplBlock>)
    requires
        aliases.covers(*caps),
    ensures
        r@ == spec_codec_blocks(*caps, *aliases),
{
    let mut v: Vec<ImplBlock> = Vec::new();
    if caps.codec {
        match &aliases.codec {
            Some(co) => {
                v.push(ImplBlock::EncodeImpl { codec: co.clone() });
                v.push(ImplBlock::EncodeLikeImpl { codec: co.clone() });
                v.push(ImplBlock::DecodeImpl { codec: co.clone() });
                v.push(ImplBlock::MaxEncodedLenImpl { codec: co.clone() });
            },
            None => {
                proof {
                    assert(false);
                }
            },
        }
    }
    proof {
        assert(v@ =~= spec_codec_blocks(*caps, *aliases));
    }
    v
}

/// Emits the reflection block.
fn type_info_blocks(caps: &CapabilitySet, aliases: &AliasTable) -> (r: Vec<ImplBlock>)
    requires
        aliases.covers(*caps),
    ensures
        r@ == spec_type_info_blocks(*caps, *aliases),
{
    let mut v: Vec<ImplBlock> = Vec::new();
    if caps.type_info {
        match &aliases.scale_info {
            Some(si) => {
                v.push(ImplBlock::TypeInfoImpl { scale_info: si.clone() });
            },
            None => {
                proof {
                    assert(false);
                }
            },
        }
    }
    proof {
        assert(v@ =~= spec_type_info_blocks(*caps, *aliases));
    }
    v
}

/// Synthesizes the implementation blocks for the resolved capability set,
/// splicing in the resolved package aliases.
pub fn synthesize(caps: &CapabilitySet, aliases: &AliasTable) -> (r: Vec<ImplBlock>)
    requires
        aliases.covers(*caps),
    ensures
        r@ == spec_synthesize(*caps, *aliases),
{
    let mut v: Vec<ImplBlock> = base_blocks(caps);
    let mut a = identity_blocks(caps, aliases);
    v.append(&mut a);
    let mut b = entropy_blocks(caps, aliases);
    v.append(&mut b);
    let mut c = pass_by_blocks(caps, aliases);
    v.append(&mut c);
    let mut d = codec_blocks(caps, aliases);
    v.append(&mut d);
    let mut e = type_info_blocks(caps, aliases);
    v.append(&mut e);
    proof {
        assert(v@ =~= spec_synthesize(*caps, *aliases));
    }
    v
}

/// Whether the configuration attribute's arguments failed to parse.
pub open spec fn spec_config_malformed(input: TypeDef) -> bool {
    spec_first_config_attr(input.attrs@) matches Some(a) && a.items is None
}

/// The type-level configuration entries of the input.
pub open spec fn spec_config_items(input: TypeDef) -> Seq<ConfigItem> {
    match spec_first_config_attr(input.attrs@) {
        Some(a) => match a.items {
            Some(its) => its@,
            None => Seq::empty(),
        },
        None => Seq::empty(),
    }
}

/// The top-level configuration names outside the allow-list.
pub open spec fn spec_top_offenders(input: TypeDef) -> Seq<Seq<char>> {
    spec_unsupported(item_names(spec_config_items(input)), spec_supported_attributes())
}

/// The enable-list names outside the allow-list.
pub open spec fn spec_derive_offenders(input: TypeDef) -> Seq<Seq<char>> {
    spec_unsupported(spec_derive_entries(spec_config_items(input)), spec_supported_derives())
}

/// The skip-list names outside the allow-list.
pub open spec fn spec_skip_offenders(input: TypeDef) -> Seq<Seq<char>> {
    spec_unsupported(spec_skip_entries(spec_config_items(input)), spec_supported_skip_derives())
}

/// Whether an active group of `caps` references the package called `package`.
pub open spec fn spec_needs_package(caps: CapabilitySet, package: Seq<char>) -> bool {
    ||| package == "sp-core"@ && caps.byte_array
    ||| package == "parity-scale-codec"@ && caps.codec
    ||| package == "sp-runtime-interface"@ && caps.pass_by
    ||| package == "scale-info"@ && caps.type_info
}

/// Whether every validation of the pipeline accepts the input.
pub open spec fn spec_input_valid(input: TypeDef) -> bool {
    &&& !spec_config_malformed(input)
    &&& spec_top_offenders(input).len() == 0
    &&& input.data matches TypeData::Struct(fields) && fields@.len() > 0
        && spec_byte_array_len(fields@[0].ty) is Some
    &&& spec_derive_offenders(input).len() == 0
    &&& spec_skip_offenders(input).len() == 0
}

/// What a successful plan holds for a valid input: the data field's name,
/// the array length expression, the captured initializer of every remaining
/// field, an alias for exactly the packages the active groups reference, and
/// exactly the blocks the capability set calls for.
pub open spec fn spec_plan_matches(input: TypeDef, plan: GenPlan) -> bool {
    let items = spec_config_items(input);
    let caps = spec_capabilities(items);
    input.data matches TypeData::Struct(fields) && {
        &&& plan.ident == input.ident
        &&& plan.data_field == spec_field_name(0, fields@[0])
        &&& Some(plan.size) == spec_byte_array_len(fields@[0].ty)
        &&& plan.initializers@.len() == fields@.len() - 1
        &&& forall|j: int|
            0 <= j < fields@.len() - 1 ==> (#[trigger] plan.initializers@[j]).name
                == spec_field_name(j + 1, fields@[j + 1]) && plan.initializers@[j].value
                == spec_field_default(fields@[j + 1].attrs@)
        &&& (plan.aliases.sp_core is Some <==> caps.byte_array)
        &&& (plan.aliases.codec is Some <==> caps.codec)
        &&& (plan.aliases.runtime_interface is Some <==> caps.pass_by)
        &&& (plan.aliases.scale_info is Some <==> caps.type_info)
        &&& plan.blocks@ == spec_synthesize(caps, plan.aliases)
    }
}

/// Runs the whole pipeline for one annotated type, in the components'
/// order: parse the configuration, validate the type's shape and capture
/// the field initializers, validate the configuration names and resolve the
/// capability groups, resolve the package aliases, and synthesize the
/// implementation plan. Every failure is fatal and reported in stage order
/// (a syntax error before a shape error, a shape error before a naming
/// error); only a missing package depends on the ambient build
/// configuration.
pub fn expand_fixed_bytes(input: &TypeDef) -> (r: Result<GenPlan, GenError>)
    ensures
        spec_config_malformed(*input) ==> (r matches Err(e) && e == GenError::MalformedConfig),
        !spec_config_malformed(*input) ==> match input.data {
            TypeData::Struct(fields) => {
                if fields@.len() == 0 {
                    r matches Err(e) && e == GenError::NoFields
                } else if spec_byte_array_len(fields@[0].ty) is None {
                    r matches Err(e) && e == GenError::ExpectedByteArray
                } else if spec_top_offenders(*input).len() > 0 {
                    r matches Err(e) && e matches GenError::UnsupportedNames { attr, names }
                        && attr@ == "buidl"@ && names_of(names@) == spec_top_offenders(*input)
                } else if spec_derive_offenders(*input).len() > 0 {
                    r matches Err(e) && e matches GenError::UnsupportedNames { attr, names }
                        && attr@ == "derive"@ && names_of(names@) == spec_derive_offenders(*input)
                } else if spec_skip_offenders(*input).len() > 0 {
                    r matches Err(e) && e matches GenError::UnsupportedNames { attr, names }
                        && attr@ == "skip_derive"@ && names_of(names@) == spec_skip_offenders(
                        *input,
                    )
                } else {
                    match r {
                        Ok(plan) => spec_plan_matches(*input, plan),
                        Err(e) => e matches GenError::MissingDependency { package }
                            && spec_needs_package(
                            spec_capabilities(spec_config_items(*input)),
                            package@,
                        ),
                    }
                }
            },
            _ => r matches Err(e) && e == GenError::NotAStruct,
        },
{
    let items_opt = match parse_top_attributes(input) {
        Ok(o) => o,
        Err(e) => {
            return Err(e);
        },
    };
    let empty_items: Vec<ConfigItem> = Vec::new();
    let items: &Vec<ConfigItem> = match items_opt {
        Some(v) => v,
        None => &empty_items,
    };
    proof {
        assert(items@ =~= spec_config_items(*input));
    }
    let fields = match check_struct_fields(&input.data) {
        Ok(f) => f,
        Err(e) => {
            return Err(e);
        },
    };
    let field_names = struct_field_names(fields);
    let size: String = match check_array_size(&fields[0].ty) {
        Ok(s) => s.clone(),
        Err(e) => {
            return Err(e);
        },
    };
    let nf = fields.len();
    let mut initializers: Vec<FieldInit> = Vec::new();
    let mut i: usize = 1;
    while i < nf
        invariant
            1 <= i <= nf,
            nf == fields@.len(),
            field_names@.len() == nf,
            forall|j: int| 0 <= j < nf ==> field_names@[j] == spec_field_name(j, fields@[j]),
            initializers@.len() == i - 1,
            forall|j: int|
                0 <= j < i - 1 ==> (#[trigger] initializers@[j]).name == spec_field_name(
                    j + 1,
                    fields@[j + 1],
                ) && initializers@[j].value == spec_field_default(fields@[j + 1].attrs@),
        decreases nf - i,
    {
        let fname = field_names[i].clone();
        let dv = field_default_value(&fields[i]);
        initializers.push(FieldInit { name: fname, value: dv });
        i = i + 1;
    }
    let top_names = entry_names(items);
    let sa = supported_attributes();
    match check_attributes("buidl", &top_names, &sa) {
        Ok(()) => {},
        Err(e) => {
            return Err(e);
        },
    }
    let caps = match resolve_capabilities(items) {
        Ok(c) => c,
        Err(e) => {
            return Err(e);
        },
    };
    let aliases = match resolve_aliases(&caps) {
        Ok(t) => t,
        Err(e) => {
            return Err(e);
        },
    };
    let blocks = synthesize(&caps, &aliases);
    Ok(
        GenPlan {
            ident: input.ident.clone(),
            data_field: field_names[0].clone(),
            size,
            initializers,
            aliases,
            blocks,
        },
    )
}

/// Law: an unrecognized name in the enable or skip list makes generation
/// fail, and the failure lists exactly the offending entries, in order —
/// the enable list reported first — whenever the stages before naming
/// validation accept the input (the configuration parses and the type is a
/// struct whose data field is a fixed-length `u8` array; an input the
/// earlier stages reject gets that earlier error, as the stage order
/// demands). The rendered diagnostic embeds each offender, quoted.
pub proof fn lemma_unknown_names_are_fatal(input: TypeDef, r: Result<GenPlan, GenError>)
    requires
        call_ensures(expand_fixed_bytes, (&input,), r),
        !spec_config_malformed(input),
        input.data matches TypeData::Struct(fields) && fields@.len() > 0
            && spec_byte_array_len(fields@[0].ty) is Some,
        spec_top_offenders(input).len() == 0,
        spec_derive_offenders(input).len() > 0 || spec_skip_offenders(input).len() > 0,
    ensures
        r matches Err(e) && e matches GenError::UnsupportedNames { attr, names } && ({
            if spec_derive_offenders(input).len() > 0 {
                attr@ == "derive"@ && names_of(names@) == spec_derive_offenders(input)
            } else {
                attr@ == "skip_derive"@ && names_of(names@) == spec_skip_offenders(input)
            }
        }),
        r matches Err(e) ==> crate::utils::spec_message(e) == "`"@ + (e->UnsupportedNames_attr)@
            + "` doesn't support ["@ + crate::utils::spec_quoted_list(
            names_of((e->UnsupportedNames_names)@),
        ) + "]"@,
{
}

} // verus!
