//! Data model of one generation invocation: the configuration items parsed
//! from the type's attribute, the shape of the annotated type and its fields,
//! and the errors that abort generation.

use vstd::prelude::*;

verus! {

/// One parsed configuration entry: a bare flag, a `name = value` pair
/// (the value kept as uninterpreted expression text), or a named list of
/// further entries.
#[derive(Debug, PartialEq, Eq)]
pub enum ConfigItem {
    Flag(String),
    NameValue(String, String),
    List(String, Vec<ConfigItem>),
}

impl ConfigItem {
    /// The name introducing the entry, whatever its form.
    pub open spec fn spec_name(&self) -> Seq<char> {
        match self {
            ConfigItem::Flag(n) => n@,
            ConfigItem::NameValue(n, _) => n@,
            ConfigItem::List(n, _) => n@,
        }
    }

    pub fn name(&self) -> (r: &String)
        ensures
            r@ == self.spec_name(),
    {
        match self {
            ConfigItem::Flag(n) => n,
            ConfigItem::NameValue(n, _) => n,
            ConfigItem::List(n, _) => n,
        }
    }
}

/// One attribute found on the type or on a field, already tokenized by the
/// host: its style (outer or inner), its path rendered as text, and its
/// arguments parsed into configuration entries. `items` is `None` when the
/// arguments do not parse as a comma-separated entry list.
#[derive(Debug, PartialEq, Eq)]
pub struct RawAttr {
    pub outer: bool,
    pub path: String,
    pub items: Option<Vec<ConfigItem>>,
}

/// The declared type of a field, to the depth the engine inspects it:
/// a fixed-length array (element shape plus the length expression's text),
/// a plain path of segment names, or anything else.
#[derive(Debug, PartialEq, Eq)]
pub enum TypeShape {
    Array(Box<TypeShape>, String),
    Path(Vec<String>),
    Other,
}

/// One field of the annotated struct: its name (`None` for a positional
/// field), its declared type, and its own attributes.
#[derive(Debug, PartialEq, Eq)]
pub struct FieldDef {
    pub name: Option<String>,
    pub ty: TypeShape,
    pub attrs: Vec<RawAttr>,
}

/// The body of the annotated type.
#[derive(Debug, PartialEq, Eq)]
pub enum TypeData {
    Struct(Vec<FieldDef>),
    Enum,
    Union,
}

/// The annotated type as handed to the engine: its name, its attributes,
/// and its body.
#[derive(Debug, PartialEq, Eq)]
pub struct TypeDef {
    pub ident: String,
    pub attrs: Vec<RawAttr>,
    pub data: TypeData,
}

/// A uniform reference to a field, whether declared by name or by position.
#[derive(Debug, PartialEq, Eq)]
pub enum FieldName {
    Named(String),
    Unnamed(usize),
}

impl Clone for FieldName {
    fn clone(&self) -> (r: Self)
        ensures
            r == *self,
    {
        match self {
            FieldName::Named(n) => FieldName::Named(n.clone()),
            FieldName::Unnamed(i) => FieldName::Unnamed(*i),
        }
    }
}

/// The resolved set of active generation groups. The base group is always
/// generated and has one optional member, cloning; the four extended
/// sub-groups are identity/sizing (`byte_array`), calling convention
/// (`pass_by`), serialization (`codec`) and reflection (`type_info`).
/// `entropy` is the derived construction-from-entropy behavior.
#[derive(Clone, Copy, Debug, PartialEq, Eq, Structural)]
pub struct CapabilitySet {
    pub cloning: bool,
    pub byte_array: bool,
    pub pass_by: bool,
    pub codec: bool,
    pub type_info: bool,
    pub entropy: bool,
}

impl CapabilitySet {
    /// Entropy construction exists exactly when both the identity group and
    /// the serialization group are active.
    pub open spec fn wf(&self) -> bool {
        self.entropy == (self.byte_array && self.codec)
    }
}

/// The identifiers under which each external package's interfaces are
/// reachable at the generation site; a package is resolved only when an
/// active group references it.
#[derive(Debug, PartialEq, Eq)]
pub struct AliasTable {
    pub sp_core: Option<String>,
    pub codec: Option<String>,
    pub runtime_interface: Option<String>,
    pub scale_info: Option<String>,
}

impl AliasTable {
    /// The table carries every alias that the capability set's active
    /// groups reference.
    pub open spec fn covers(&self, c: CapabilitySet) -> bool {
        &&& c.byte_array ==> self.sp_core is Some
        &&& c.codec ==> self.codec is Some
        &&& c.entropy ==> self.sp_core is Some && self.codec is Some
        &&& c.pass_by ==> self.runtime_interface is Some
        &&& c.type_info ==> self.scale_info is Some
    }
}

/// One implementation block of the generated output, carrying the resolved
/// alias of each external package it references.
#[derive(Debug, PartialEq, Eq)]
pub enum ImplBlock {
    /// Field-wise cloning.
    CloneImpl,
    /// Equality delegated to the data field.
    PartialEqImpl,
    EqImpl,
    /// Total ordering delegated to the data field.
    PartialOrdImpl,
    OrdImpl,
    /// Conversion from the raw fixed-length array.
    FromArrayImpl,
    /// Fallible conversion from a byte view.
    TryFromSliceImpl,
    /// Conversion back to the raw fixed-length array.
    IntoArrayImpl,
    /// Read-only borrowing of the data field as a byte view.
    AsRefImpl,
    /// Mutable borrowing of the data field as a byte view.
    AsMutImpl,
    /// Hashing delegated to the data field.
    HashImpl,
    /// Transparent read access to the data field.
    DerefImpl,
    /// Transparent write access to the data field.
    DerefMutImpl,
    /// The compile-time length as an associated constant.
    ByteArrayImpl { sp_core: String },
    /// Unchecked construction from the raw array.
    UncheckedFromImpl { sp_core: String },
    /// Construction from a source of entropy bytes.
    FromEntropyImpl { sp_core: String, codec: String },
    /// Passing across an interface boundary by the inner array.
    PassByInnerImpl { runtime_interface: String },
    PassByImpl { runtime_interface: String },
    /// Size hint and encoding delegated to the data field.
    EncodeImpl { codec: String },
    EncodeLikeImpl { codec: String },
    /// Decoding of the inner array, then conversion.
    DecodeImpl { codec: String },
    /// Maximum encoded length of the inner array.
    MaxEncodedLenImpl { codec: String },
    /// Reflection as an alias of the inner array.
    TypeInfoImpl { scale_info: String },
}

/// The initializer chosen for one auxiliary field: its configured default
/// value, or `None` for generic default construction.
#[derive(Debug, PartialEq, Eq)]
pub struct FieldInit {
    pub name: FieldName,
    pub value: Option<String>,
}

/// Everything the emitter needs for one type: the type name, the data
/// field, the length expression of its array type, the initializers of the
/// remaining fields, the resolved package aliases, and the implementation
/// blocks to emit, in order.
#[derive(Debug, PartialEq, Eq)]
pub struct GenPlan {
    pub ident: String,
    pub data_field: FieldName,
    pub size: String,
    pub initializers: Vec<FieldInit>,
    pub aliases: AliasTable,
    pub blocks: Vec<ImplBlock>,
}

/// A fatal condition that aborts generation for the current type.
#[derive(Debug, PartialEq, Eq)]
pub enum GenError {
    /// The annotated type is not a struct.
    NotAStruct,
    /// The annotated struct has no fields.
    NoFields,
    /// Field 0 is not a fixed-length `u8` array.
    ExpectedByteArray,
    /// The configuration attribute's arguments do not parse as an entry list.
    MalformedConfig,
    /// Entries outside the allow-list of the named keyword, every offender listed.
    UnsupportedNames { attr: String, names: Vec<String> },
    /// An active capability group references a package that cannot be located.
    MissingDependency { package: String },
}

} // verus!
