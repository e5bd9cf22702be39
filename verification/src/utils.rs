//! Scanning of the parsed configuration: locating the engine's attribute on
//! the type, reading list entries, and extracting field-level default values.

use vstd::prelude::*;

use crate::model::{ConfigItem, FieldDef, GenError, RawAttr, TypeDef};

verus! {

/// The attribute keyword that introduces this engine's configuration.
pub open spec fn spec_config_keyword() -> Seq<char> {
    "buidl"@
}

/// The keyword that attaches a default value to a field.
pub open spec fn spec_default_keyword() -> Seq<char> {
    "default"@
}

/// Compares a stored name against a literal one.
pub fn string_is(s: &String, lit: &str) -> (r: bool)
    ensures
        r == (s@ == lit@),
{
    let l: String = String::from_str(lit);
    s.eq(&l)
}

/// The views of a list of names.
pub open spec fn names_of(v: Seq<String>) -> Seq<Seq<char>> {
    v.map_values(|s: String| s@)
}

/// The names of a list of entries.
pub open spec fn item_names(s: Seq<ConfigItem>) -> Seq<Seq<char>> {
    s.map_values(|e: ConfigItem| e.spec_name())
}

/// Whether an attribute is this engine's configuration attribute.
pub open spec fn spec_is_config_attr(a: RawAttr) -> bool {
    a.outer && a.path@ == spec_config_keyword()
}

/// The first configuration attribute among `attrs`, if any.
pub open spec fn spec_first_config_attr(attrs: Seq<RawAttr>) -> Option<RawAttr>
    decreases attrs.len(),
{
    if attrs.len() == 0 {
        None
    } else if spec_is_config_attr(attrs[0]) {
        Some(attrs[0])
    } else {
        spec_first_config_attr(attrs.drop_first())
    }
}

/// The type-level configuration entries: the argument list of the first
/// configuration attribute on the type. A type without one simply has no
/// entries; one whose arguments did not parse is a fatal syntax error.
pub fn parse_top_attributes<'a>(input: &'a TypeDef) -> (r: Result<
    Option<&'a Vec<ConfigItem>>,
    GenError,
>)
    ensures
        match spec_first_config_attr(input.attrs@) {
            Some(a) => match a.items {
                Some(its) => r matches Ok(o) && o matches Some(v) && *v == its,
                None => r matches Err(e) && e == GenError::MalformedConfig,
            },
            None => r matches Ok(o) && o is None,
        },
{
    let attrs = &input.attrs;
    let n = attrs.len();
    proof {
        assert(attrs@.skip(0) =~= attrs@);
    }
    let mut i: usize = 0;
    while i < n
        invariant
            i <= n,
            attrs@ == input.attrs@,
            n == attrs@.len(),
            spec_first_config_attr(attrs@) == spec_first_config_attr(attrs@.skip(i as int)),
        decreases n - i,
    {
        let a = &attrs[i];
        proof {
            assert(attrs@.skip(i as int)[0] == attrs@[i as int]);
            assert(attrs@.skip(i as int).drop_first() =~= attrs@.skip(i as int + 1));
        }
        if a.outer && string_is(&a.path, "buidl") {
            proof {
                assert(spec_first_config_attr(attrs@) == Some(attrs@[i as int]));
            }
            match &a.items {
                Some(v) => {
                    return Ok(Some(v));
                },
                None => {
                    return Err(GenError::MalformedConfig);
                },
            }
        }
        i = i + 1;
    }
    proof {
        assert(attrs@.skip(n as int) =~= Seq::<RawAttr>::empty());
    }
    Ok(None)
}

/// The entries of a named list, or nothing when the entry is not a list.
pub fn parse_list_items<'a>(item: &'a ConfigItem) -> (r: Option<&'a Vec<ConfigItem>>)
    ensures
        match item {
            ConfigItem::List(_, entries) => r matches Some(v) && *v == entries,
            _ => r is None,
        },
{
    match item {
        ConfigItem::List(_, entries) => Some(entries),
        _ => None,
    }
}

/// The first entry of `items` whose name is `key`, if any.
pub open spec fn spec_first_named(items: Seq<ConfigItem>, key: Seq<char>) -> Option<ConfigItem>
    decreases items.len(),
{
    if items.len() == 0 {
        None
    } else if items[0].spec_name() == key {
        Some(items[0])
    } else {
        spec_first_named(items.drop_first(), key)
    }
}

/// The names listed under `key`: the entry names of the first entry named
/// `key`, when that entry is a list; otherwise no names.
pub open spec fn spec_entry_names(items: Seq<ConfigItem>, key: Seq<char>) -> Seq<Seq<char>> {
    match spec_first_named(items, key) {
        Some(item) => match item {
            ConfigItem::List(_, entries) => item_names(entries@),
            _ => Seq::empty(),
        },
        None => Seq::empty(),
    }
}

/// Finds the first entry named `key` among the type-level entries.
pub fn find_named<'a>(items: &'a Vec<ConfigItem>, key: &str) -> (r: Option<&'a ConfigItem>)
    ensures
        match spec_first_named(items@, key@) {
            Some(it) => r matches Some(v) && *v == it,
            None => r is None,
        },
{
    let n = items.len();
    proof {
        assert(items@.skip(0) =~= items@);
    }
    let mut i: usize = 0;
    while i < n
        invariant
            i <= n,
            n == items@.len(),
            spec_first_named(items@, key@) == spec_first_named(items@.skip(i as int), key@),
        decreases n - i,
    {
        let item = &items[i];
        proof {
            assert(items@.skip(i as int)[0] == items@[i as int]);
            assert(items@.skip(i as int).drop_first() =~= items@.skip(i as int + 1));
        }
        if string_is(item.name(), key) {
            return Some(item);
        }
        i = i + 1;
    }
    proof {
        assert(items@.skip(n as int) =~= Seq::<ConfigItem>::empty());
    }
    None
}

/// Collects the names listed under `key` among the type-level entries.
pub fn find_list_strings(items: &Vec<ConfigItem>, key: &str) -> (r: Vec<String>)
    ensures
        names_of(r@) == spec_entry_names(items@, key@),
{
    match find_named(items, key) {
        Some(item) => match item {
            ConfigItem::List(_, entries) => entry_names(entries),
            _ => {
                let r: Vec<String> = Vec::new();
                proof {
                    assert(names_of(r@) =~= Seq::<Seq<char>>::empty());
                }
                r
            },
        },
        None => {
            let r: Vec<String> = Vec::new();
            proof {
                assert(names_of(r@) =~= Seq::<Seq<char>>::empty());
            }
            r
        },
    }
}

/// Appending a name extends the views pointwise.
pub(crate) proof fn lemma_names_of_push(v: Seq<String>, s: String)
    ensures
        names_of(v.push(s)) =~= names_of(v).push(s@),
{
    assert(names_of(v.push(s)) =~= names_of(v).push(s@));
}

/// Appending an entry extends the entry names pointwise.
proof fn lemma_item_names_push(v: Seq<ConfigItem>, e: ConfigItem)
    ensures
        item_names(v.push(e)) =~= item_names(v).push(e.spec_name()),
{
    assert(item_names(v.push(e)) =~= item_names(v).push(e.spec_name()));
}

/// Copies out the names of a list of entries.
pub(crate) fn entry_names(entries: &Vec<ConfigItem>) -> (r: Vec<String>)
    ensures
        names_of(r@) == item_names(entries@),
{
    let n = entries.len();
    let mut out: Vec<String> = Vec::new();
    let mut i: usize = 0;
    while i < n
        invariant
            i <= n,
            n == entries@.len(),
            names_of(out@) =~= item_names(entries@.subrange(0, i as int)),
        decreases n - i,
    {
        let ghost prev = out@;
        let nm = entries[i].name().clone();
        out.push(nm);
        proof {
            lemma_names_of_push(prev, out@[i as int]);
            lemma_item_names_push(entries@.subrange(0, i as int), entries@[i as int]);
            assert(entries@.subrange(0, i + 1 as int) =~= entries@.subrange(0, i as int).push(
                entries@[i as int],
            ));
            assert(names_of(out@) =~= item_names(entries@.subrange(0, i + 1 as int)));
        }
        i = i + 1;
    }
    proof {
        assert(entries@.subrange(0, n as int) =~= entries@);
    }
    out
}

/// The default value carried by one attribute: present only on an outer
/// configuration attribute whose whole argument list is the single pair
/// `default = value`.
pub open spec fn spec_attr_default(a: RawAttr) -> Option<String> {
    match a.items {
        Some(its) => {
            if its@.len() == 1 {
                match its@[0] {
                    ConfigItem::NameValue(n, v) => {
                        if spec_is_config_attr(a) && n@ == spec_default_keyword() {
                            Some(v)
                        } else {
                            None
                        }
                    },
                    _ => None,
                }
            } else {
                None
            }
        },
        None => None,
    }
}

/// The field's configured default value: the first of its attributes that
/// carries one.
pub open spec fn spec_field_default(attrs: Seq<RawAttr>) -> Option<String>
    decreases attrs.len(),
{
    if attrs.len() == 0 {
        None
    } else if spec_attr_default(attrs[0]) is Some {
        spec_attr_default(attrs[0])
    } else {
        spec_field_default(attrs.drop_first())
    }
}

/// Extracts the default-value expression configured on a field, if any.
pub fn field_default_value(field: &FieldDef) -> (r: Option<String>)
    ensures
        r == spec_field_default(field.attrs@),
{
    let attrs = &field.attrs;
    let n = attrs.len();
    proof {
        assert(attrs@.skip(0) =~= attrs@);
    }
    let mut i: usize = 0;
    while i < n
        invariant
            i <= n,
            attrs@ == field.attrs@,
            n == attrs@.len(),
            spec_field_default(attrs@) == spec_field_default(attrs@.skip(i as int)),
        decreases n - i,
    {
        let a = &attrs[i];
        proof {
            assert(attrs@.skip(i as int)[0] == attrs@[i as int]);
            assert(attrs@.skip(i as int).drop_first() =~= attrs@.skip(i as int + 1));
        }
        if a.outer && string_is(&a.path, "buidl") {
            match &a.items {
                Some(its) => {
                    if its.len() == 1 {
                        match &its[0] {
                            ConfigItem::NameValue(nm, v) => {
                                if string_is(nm, "default") {
                                    return Some(v.clone());
                                }
                            },
                            _ => {},
                        }
                    }
                },
                None => {},
            }
        }
        i = i + 1;
    }
    proof {
        assert(attrs@.skip(n as int) =~= Seq::<RawAttr>::empty());
    }
    None
}

/// A name with every dash made an underscore.
pub open spec fn spec_undash(s: Seq<char>) -> Seq<char> {
    s.map_values(|c: char| if c == '-' { '_' } else { c })
}

/// Replacing one more character keeps the mapping pointwise.
proof fn lemma_undash_push(v: Seq<char>, c: char)
    ensures
        spec_undash(v.push(c)) =~= spec_undash(v).push(if c == '-' { '_' } else { c }),
{
    assert(spec_undash(v.push(c)) =~= spec_undash(v).push(if c == '-' { '_' } else { c }));
}

/// Rewrites a package name as the identifier it is imported under when the
/// package is the crate being compiled itself.
pub fn dash_to_underscore(s: &str) -> (r: String)
    ensures
        r@ == spec_undash(s@),
{
    let n = s.unicode_len();
    let mut r = String::new();
    proof {
        assert(s@.subrange(0, 0) =~= Seq::<char>::empty());
        assert(r@ =~= spec_undash(s@.subrange(0, 0)));
    }
    let mut i: usize = 0;
    while i < n
        invariant
            i <= n,
            n == s@.len(),
            r@ =~= spec_undash(s@.subrange(0, i as int)),
        decreases n - i,
    {
        let ghost prev = r@;
        let c = s.get_char(i);
        if c == '-' {
            r.append("_");
            proof {
                reveal_strlit("_");
                assert("_"@ =~= seq!['_']);
                assert(r@ =~= prev.push('_'));
            }
        } else {
            let piece = s.substring_char(i, i + 1);
            proof {
                assert(piece@ =~= seq![s@[i as int]]);
            }
            r.append(piece);
            proof {
                assert(r@ =~= prev.push(s@[i as int]));
            }
        }
        proof {
            lemma_undash_push(s@.subrange(0, i as int), s@[i as int]);
            assert(s@.subrange(0, i + 1 as int) =~= s@.subrange(0, i as int).push(s@[i as int]));
            assert(r@ =~= spec_undash(s@.subrange(0, i + 1 as int)));
        }
        i = i + 1;
    }
    proof {
        assert(s@.subrange(0, n as int) =~= s@);
    }
    r
}

/// What looking a package up in the ambient build configuration can yield:
/// the package is the crate being compiled, the package is imported under
/// some name, or the package cannot be located.
#[derive(Debug, PartialEq, Eq)]
pub enum CrateLookup {
    Itself,
    Renamed(String),
    Missing,
}

/// Relies on proc_macro_crate::crate_name: reads the manifest of the crate
/// being compiled and reports whether `name` is that crate itself, a
/// dependency (under the name it is imported as), or absent. The answer
/// depends on that manifest, so nothing is promised of it.
#[verifier::external_body]
fn lookup_crate(name: &str) -> CrateLookup {
    match proc_macro_crate::crate_name(name) {
        Ok(proc_macro_crate::FoundCrate::Itself) => CrateLookup::Itself,
        Ok(proc_macro_crate::FoundCrate::Name(n)) => CrateLookup::Renamed(n),
        Err(_) => CrateLookup::Missing,
    }
}

/// Maps one lookup outcome for the package `name` to the identifier used at
/// the generation site: generation inside the package itself uses the local
/// name, so the package name with dashes made underscores; an import is
/// used under the name the manifest gives it; a package that cannot be
/// located is a fatal error naming it.
pub fn alias_of(lookup: CrateLookup, name: &str) -> (r: Result<String, GenError>)
    ensures
        match lookup {
            CrateLookup::Itself => r matches Ok(s) && s@ == spec_undash(name@),
            CrateLookup::Renamed(n) => r matches Ok(s) && s == n,
            CrateLookup::Missing => r matches Err(e) && e matches GenError::MissingDependency {
                package,
            } && package@ == name@,
        },
{
    match lookup {
        CrateLookup::Itself => Ok(dash_to_underscore(name)),
        CrateLookup::Renamed(n) => Ok(n),
        CrateLookup::Missing => Err(
            GenError::MissingDependency { package: String::from_str(name) },
        ),
    }
}

/// Resolves the identifier under which the package `name`'s interfaces are
/// reachable at the generation site: the ambient lookup's outcome, mapped by
/// [`alias_of`]. The outcome itself depends on the manifest of the crate
/// being compiled, so only the shape of a failure can be promised here;
/// each success case is pinned by `alias_of`'s contract.
pub fn crate_access(name: &str) -> (r: Result<String, GenError>)
    ensures
        r matches Err(e) ==> e matches GenError::MissingDependency { package } && package@
            == name@,
{
    alias_of(lookup_crate(name), name)
}


/// The offending names, each quoted, separated by commas.
pub open spec fn spec_quoted_list(names: Seq<Seq<char>>) -> Seq<char>
    decreases names.len(),
{
    if names.len() == 0 {
        Seq::empty()
    } else if names.len() == 1 {
        "\""@ + names[0] + "\""@
    } else {
        "\""@ + names[0] + "\""@ + ", "@ + spec_quoted_list(names.drop_first())
    }
}

/// The message each fatal condition carries: it names the offending entries
/// exactly, or the package that could not be located.
pub open spec fn spec_message(e: GenError) -> Seq<char> {
    match e {
        GenError::NotAStruct => "`struct` expected"@,
        GenError::NoFields => "no fields"@,
        GenError::ExpectedByteArray => "expected u8 array"@,
        GenError::MalformedConfig => "malformed configuration list"@,
        GenError::UnsupportedNames { attr, names } => "`"@ + attr@ + "` doesn't support ["@
            + spec_quoted_list(names_of(names@)) + "]"@,
        GenError::MissingDependency { package } => "should have `"@ + package@
            + "` in dependencies"@,
    }
}

/// One more quoted name extends the list, after a separator unless it is the
/// first.
proof fn lemma_quoted_list_append(s: Seq<Seq<char>>, x: Seq<char>)
    ensures
        s.len() == 0 ==> spec_quoted_list(s.push(x)) =~= "\""@ + x + "\""@,
        s.len() > 0 ==> spec_quoted_list(s.push(x)) =~= spec_quoted_list(s) + ", "@ + "\""@ + x
            + "\""@,
    decreases s.len(),
{
    if s.len() == 0 {
        assert(s.push(x)[0] == x);
    } else {
        lemma_quoted_list_append(s.drop_first(), x);
        assert(s.push(x)[0] == s[0]);
        assert(s.push(x).drop_first() =~= s.drop_first().push(x));
        assert(spec_quoted_list(s.push(x)) =~= spec_quoted_list(s) + ", "@ + "\""@ + x + "\""@);
    }
}

impl GenError {
    /// Renders the condition as the diagnostic the build fails with.
    pub fn describe(&self) -> (r: String)
        ensures
            r@ == spec_message(*self),
    {
        match self {
            GenError::NotAStruct => String::from_str("`struct` expected"),
            GenError::NoFields => String::from_str("no fields"),
            GenError::ExpectedByteArray => String::from_str("expected u8 array"),
            GenError::MalformedConfig => String::from_str("malformed configuration list"),
            GenError::UnsupportedNames { attr, names } => {
                let mut m = String::from_str("`");
                m.append(attr.as_str());
                m.append("` doesn't support [");
                let ghost header = "`"@ + attr@ + "` doesn't support ["@;
                proof {
                    assert(m@ =~= header);
                    assert(names_of(names@).subrange(0, 0) =~= Seq::<Seq<char>>::empty());
                    assert(m@ =~= header + spec_quoted_list(names_of(names@).subrange(0, 0)));
                }
                let n = names.len();
                let mut i: usize = 0;
                while i < n
                    invariant
                        i <= n,
                        n == names@.len(),
                        header == "`"@ + attr@ + "` doesn't support ["@,
                        m@ =~= header + spec_quoted_list(names_of(names@).subrange(0, i as int)),
                    decreases n - i,
                {
                    if i > 0 {
                        m.append(", ");
                    }
                    m.append("\"");
                    m.append(names[i].as_str());
                    m.append("\"");
                    proof {
                        let pre = names_of(names@).subrange(0, i as int);
                        lemma_quoted_list_append(pre, names@[i as int]@);
                        assert(names_of(names@)[i as int] == names@[i as int]@);
                        assert(names_of(names@).subrange(0, i + 1 as int) =~= pre.push(
                            names@[i as int]@,
                        ));
                        assert(m@ =~= header + spec_quoted_list(
                            names_of(names@).subrange(0, i + 1 as int),
                        ));
                    }
                    i = i + 1;
                }
                m.append("]");
                proof {
                    assert(names_of(names@).subrange(0, n as int) =~= names_of(names@));
                    assert(m@ =~= spec_message(*self));
                }
                m
            },
            GenError::MissingDependency { package } => {
                let mut m = String::from_str("should have `");
                m.append(package.as_str());
                m.append("` in dependencies");
                proof {
                    assert(m@ =~= spec_message(*self));
                }
                m
            },
        }
    }
}

} // verus!

