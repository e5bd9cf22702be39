//! The behavior of the emitted implementations, as an executable model: a
//! value of a generated type is its data field's bytes together with the
//! captured initializer of each auxiliary field, and every operation the
//! synthesizer emits is specified here against that model. Equality,
//! ordering and hashing read the data field alone; every construction path
//! sets the data field from the given bytes and each auxiliary field from
//! its captured initializer.

use vstd::prelude::*;
use vstd::slice::{slice_index_get, slice_subrange, slice_to_vec};

verus! {

/// The initializer captured for one auxiliary field: the configured
/// default-value expression, uninterpreted, or generic default construction.
#[derive(Clone, Debug, PartialEq, Eq, Hash)]
pub enum AuxValue {
    Given(String),
    Defaulted,
}

/// The initializer a configured default maps to.
pub open spec fn spec_aux_of(d: Option<String>) -> AuxValue {
    match d {
        Some(e) => AuxValue::Given(e),
        None => AuxValue::Defaulted,
    }
}

/// The initializers of all auxiliary fields.
pub open spec fn spec_aux_inits(defaults: Seq<Option<String>>) -> Seq<AuxValue> {
    defaults.map_values(|d: Option<String>| spec_aux_of(d))
}

/// A value of a generated type, as the emitted implementations treat it.
#[derive(Clone, Debug, PartialEq, Eq, Hash)]
pub struct Instance {
    pub data: Vec<u8>,
    pub aux: Vec<AuxValue>,
}

/// The mathematical content of an instance.
#[verifier::ext_equal]
pub struct InstanceView {
    pub data: Seq<u8>,
    pub aux: Seq<AuxValue>,
}

impl View for Instance {
    type V = InstanceView;

    open spec fn view(&self) -> InstanceView {
        InstanceView { data: self.data@, aux: self.aux@ }
    }
}

/// What every construction from a raw byte sequence yields: that sequence as
/// the data field, and each auxiliary field's captured initializer.
pub open spec fn spec_from_array(a: Seq<u8>, defaults: Seq<Option<String>>) -> InstanceView {
    InstanceView { data: a, aux: spec_aux_inits(defaults) }
}

/// What the conversion back to the raw sequence extracts: the data field
/// alone, the auxiliary fields discarded.
pub open spec fn spec_to_array(v: InstanceView) -> Seq<u8> {
    v.data
}

/// One more default extends the initializers pointwise.
proof fn lemma_aux_inits_push(v: Seq<Option<String>>, d: Option<String>)
    ensures
        spec_aux_inits(v.push(d)) =~= spec_aux_inits(v).push(spec_aux_of(d)),
{
    assert(spec_aux_inits(v.push(d)) =~= spec_aux_inits(v).push(spec_aux_of(d)));
}

/// Models the generated conversion from the raw fixed-length array: the data
/// field takes the given bytes; a field with a configured default value is
/// initialized to it, one without to its type's generic default.
pub fn from_array(data: Vec<u8>, defaults: &Vec<Option<String>>) -> (r: Instance)
    ensures
        r@ == spec_from_array(data@, defaults@),
{
    let n = defaults.len();
    let mut aux: Vec<AuxValue> = Vec::new();
    proof {
        assert(aux@ =~= spec_aux_inits(defaults@.subrange(0, 0)));
    }
    let mut i: usize = 0;
    while i < n
        invariant
            i <= n,
            n == defaults@.len(),
            aux@ =~= spec_aux_inits(defaults@.subrange(0, i as int)),
        decreases n - i,
    {
        match &defaults[i] {
            Some(e) => aux.push(AuxValue::Given(e.clone())),
            None => aux.push(AuxValue::Defaulted),
        }
        proof {
            lemma_aux_inits_push(defaults@.subrange(0, i as int), defaults@[i as int]);
            assert(defaults@.subrange(0, i + 1 as int) =~= defaults@.subrange(0, i as int).push(
                defaults@[i as int],
            ));
            assert(aux@ =~= spec_aux_inits(defaults@.subrange(0, i + 1 as int)));
        }
        i = i + 1;
    }
    proof {
        assert(defaults@.subrange(0, n as int) =~= defaults@);
    }
    let r = Instance { data, aux };
    proof {
        assert(r@ =~= spec_from_array(r.data@, defaults@));
    }
    r
}

/// The generic conversion error of the fallible construction.
#[derive(Clone, Copy, Debug, PartialEq, Eq, Structural)]
pub struct ConversionError;

/// What fallible construction from a byte view of any length yields: success
/// exactly when the view's length equals the array length.
pub open spec fn spec_try_from_slice(v: Seq<u8>, n: nat, defaults: Seq<Option<String>>) -> Option<
    InstanceView,
> {
    if v.len() == n {
        Some(spec_from_array(v, defaults))
    } else {
        None
    }
}

/// Models the generated fallible conversion from a byte view: it succeeds
/// exactly when the view holds as many bytes as the data field, and then
/// equals construction from the equivalent fixed array.
pub fn try_from_slice(v: &[u8], n: usize, defaults: &Vec<Option<String>>) -> (r: Result<
    Instance,
    ConversionError,
>)
    ensures
        match spec_try_from_slice(v@, n as nat, defaults@) {
            Some(iv) => r matches Ok(inst) && inst@ == iv,
            None => r matches Err(e) && e == ConversionError,
        },
        r is Ok <==> v@.len() == n,
{
    if v.len() == n {
        Ok(from_array(slice_to_vec(v), defaults))
    } else {
        Err(ConversionError)
    }
}

/// Models the generated conversion back to the raw fixed-length array:
/// exactly the data field, the auxiliary fields discarded.
pub fn to_array(x: Instance) -> (r: Vec<u8>)
    ensures
        r@ == spec_to_array(x@),
{
    x.data
}

/// Models read-only borrowing of the data field as a byte view, and the
/// transparent read access: both hand out exactly the data field.
pub fn as_byte_view(x: &Instance) -> (r: &[u8])
    ensures
        r@ == x@.data,
{
    x.data.as_slice()
}

/// Models one write through the mutable byte view (or the transparent write
/// access): the byte changes, the auxiliary fields do not.
pub fn set_byte(x: &mut Instance, i: usize, b: u8)
    requires
        i < old(x)@.data.len(),
    ensures
        final(x)@.data == old(x)@.data.update(i as int, b),
        final(x)@.aux == old(x)@.aux,
{
    x.data.set(i, b);
}

/// Models the generated equality: delegated entirely to the data field; the
/// auxiliary fields are excluded from comparison.
pub fn eq_instance(a: &Instance, b: &Instance) -> (r: bool)
    ensures
        r == (a@.data == b@.data),
{
    let la = a.data.len();
    let lb = b.data.len();
    if la != lb {
        return false;
    }
    let mut i: usize = 0;
    while i < la
        invariant
            i <= la,
            la == a@.data.len(),
            la == b@.data.len(),
            forall|j: int| 0 <= j < i ==> a@.data[j] == b@.data[j],
        decreases la - i,
    {
        if a.data[i] != b.data[i] {
            return false;
        }
        i = i + 1;
    }
    proof {
        assert(a@.data =~= b@.data);
    }
    true
}

/// How two instances are ordered.
#[derive(Clone, Copy, Debug, PartialEq, Eq, Structural)]
pub enum DataOrdering {
    Less,
    Equal,
    Greater,
}

/// Lexicographic order on byte sequences, as the data field's array orders.
pub open spec fn spec_lex_cmp(a: Seq<u8>, b: Seq<u8>) -> DataOrdering
    decreases a.len(),
{
    if a.len() == 0 && b.len() == 0 {
        DataOrdering::Equal
    } else if a.len() == 0 {
        DataOrdering::Less
    } else if b.len() == 0 {
        DataOrdering::Greater
    } else if a[0] < b[0] {
        DataOrdering::Less
    } else if a[0] > b[0] {
        DataOrdering::Greater
    } else {
        spec_lex_cmp(a.drop_first(), b.drop_first())
    }
}

/// Models the generated total ordering: delegated entirely to the data
/// field, irrespective of the auxiliary fields.
pub fn cmp_instance(a: &Instance, b: &Instance) -> (r: DataOrdering)
    ensures
        r == spec_lex_cmp(a@.data, b@.data),
{
    let la = a.data.len();
    let lb = b.data.len();
    proof {
        assert(a@.data.skip(0) =~= a@.data);
        assert(b@.data.skip(0) =~= b@.data);
    }
    let mut i: usize = 0;
    while i < la && i < lb
        invariant
            i <= la,
            i <= lb,
            la == a@.data.len(),
            lb == b@.data.len(),
            spec_lex_cmp(a@.data, b@.data) == spec_lex_cmp(
                a@.data.skip(i as int),
                b@.data.skip(i as int),
            ),
        decreases la - i,
    {
        proof {
            assert(a@.data.skip(i as int)[0] == a@.data[i as int]);
            assert(b@.data.skip(i as int)[0] == b@.data[i as int]);
        }
        let x = a.data[i];
        let y = b.data[i];
        if x < y {
            return DataOrdering::Less;
        }
        if x > y {
            return DataOrdering::Greater;
        }
        proof {
            assert(a@.data.skip(i as int).drop_first() =~= a@.data.skip(i as int + 1));
            assert(b@.data.skip(i as int).drop_first() =~= b@.data.skip(i as int + 1));
        }
        i = i + 1;
    }
    proof {
        if i == la {
            assert(a@.data.skip(la as int) =~= Seq::<u8>::empty());
        }
        if i == lb {
            assert(b@.data.skip(lb as int) =~= Seq::<u8>::empty());
        }
    }
    if la < lb {
        DataOrdering::Less
    } else if lb < la {
        DataOrdering::Greater
    } else {
        DataOrdering::Equal
    }
}

/// Law: constructing from a raw sequence and converting back yields the same
/// sequence, whatever the auxiliary fields' defaults.
pub proof fn lemma_construction_round_trip(a: Seq<u8>, defaults: Seq<Option<String>>)
    ensures
        spec_to_array(spec_from_array(a, defaults)) == a,
{
}

/// Law: for a view of the right length, fallible construction succeeds and
/// equals construction from the equivalent fixed array; for any other
/// length it fails.
pub proof fn lemma_view_construction_agrees(v: Seq<u8>, n: nat, defaults: Seq<Option<String>>)
    ensures
        v.len() == n ==> spec_try_from_slice(v, n, defaults) == Some(spec_from_array(v, defaults)),
        v.len() != n ==> spec_try_from_slice(v, n, defaults) is None,
{
}

/// Law: ordering and equality between instances depend on the data fields
/// alone; instances with equal data fields compare alike whatever their
/// auxiliary fields hold.
pub proof fn lemma_comparison_ignores_aux(a1: Instance, b1: Instance, a2: Instance, b2: Instance)
    requires
        a1@.data == a2@.data,
        b1@.data == b2@.data,
    ensures
        spec_lex_cmp(a1@.data, b1@.data) == spec_lex_cmp(a2@.data, b2@.data),
        (a1@.data == b1@.data) <==> (a2@.data == b2@.data),
{
}

/// Law: the generated ordering calls two instances equal exactly when the
/// generated equality does, that is, when their data fields are equal.
pub proof fn lemma_lex_cmp_equal_iff(a: Seq<u8>, b: Seq<u8>)
    ensures
        spec_lex_cmp(a, b) == DataOrdering::Equal <==> a == b,
    decreases a.len(),
{
    if a.len() == 0 && b.len() == 0 {
        assert(a =~= b);
    } else if a.len() == 0 || b.len() == 0 {
    } else if a[0] == b[0] {
        lemma_lex_cmp_equal_iff(a.drop_first(), b.drop_first());
        if spec_lex_cmp(a, b) == DataOrdering::Equal {
            assert(a.drop_first() == b.drop_first());
            assert forall|k: int| 1 <= k < a.len() implies a[k] == b[k] by {
                assert(a[k] == a.drop_first()[k - 1]);
                assert(b[k] == b.drop_first()[k - 1]);
            }
            assert(a =~= b);
        } else {
            if a == b {
                assert(a.drop_first() =~= b.drop_first());
            }
        }
    } else {
        if a == b {
            assert(a[0] == b[0]);
        }
    }
}

/// Law: every raw-sequence-based construction path initializes a field with
/// a configured default to that value, and a field without one to its
/// type's generic default.
pub proof fn lemma_defaults_captured(a: Seq<u8>, defaults: Seq<Option<String>>, j: int)
    requires
        0 <= j < defaults.len(),
    ensures
        spec_from_array(a, defaults).aux[j] == spec_aux_of(defaults[j]),
        defaults[j] matches Some(e) ==> spec_from_array(a, defaults).aux[j] == AuxValue::Given(e),
        defaults[j] is None ==> spec_from_array(a, defaults).aux[j] == AuxValue::Defaulted,
{
}

/// The bytes the generated hashing feeds to the hasher: exactly the data
/// field, so hashing depends on it alone.
pub open spec fn spec_hash_input(v: InstanceView) -> Seq<u8> {
    v.data
}

/// Models the generated hashing: the hasher is fed the data field's bytes
/// and nothing else; the auxiliary fields never reach it.
pub fn hash_input(x: &Instance) -> (r: &[u8])
    ensures
        r@ == spec_hash_input(x@),
{
    x.data.as_slice()
}

/// Law: hashing depends on the data field alone; instances with equal data
/// fields feed the hasher identical bytes, whatever their auxiliary fields
/// hold.
pub proof fn lemma_hashing_ignores_aux(a: Instance, b: Instance)
    requires
        a@.data == b@.data,
    ensures
        spec_hash_input(a@) == spec_hash_input(b@),
{
}

/// What a reflective description can say a type is: an alias of a
/// fixed-length `u8` array, or a composite of its own fields.
#[derive(Clone, Copy, Debug, PartialEq, Eq, Structural)]
pub enum TypeDescription {
    ByteArrayAlias { len: usize },
    Composite { field_count: usize },
}

/// The description the generated reflection exposes: the type reflects as
/// an alias of its inner sequence — the data field's own description — and
/// never as a composite of its fields.
pub open spec fn spec_reflection(v: InstanceView) -> TypeDescription {
    TypeDescription::ByteArrayAlias { len: v.data.len() as usize }
}

/// Models the generated reflection: the binary-layout description equals the
/// data field's own, an alias of the fixed-length `u8` array.
pub fn reflect_instance(x: &Instance) -> (r: TypeDescription)
    ensures
        r == spec_reflection(x@),
        r matches TypeDescription::ByteArrayAlias { len } && len == x@.data.len(),
{
    TypeDescription::ByteArrayAlias { len: x.data.len() }
}

/// Law: the reflective description depends on the data field alone.
pub proof fn lemma_reflection_ignores_aux(a: Instance, b: Instance)
    requires
        a@.data == b@.data,
    ensures
        spec_reflection(a@) == spec_reflection(b@),
{
}

/// Models the generated size hint: the data field's own, the array's length.
pub fn size_hint_instance(x: &Instance) -> (r: usize)
    ensures
        r == x@.data.len(),
{
    x.data.len()
}

/// Models the generated encoding: delegated to the data field, whose
/// fixed-length `u8` array encodes as exactly its bytes.
pub fn encode_instance(x: &Instance) -> (r: Vec<u8>)
    ensures
        r@ == x@.data,
{
    slice_to_vec(x.data.as_slice())
}

/// Models the generated maximum encoded length: the inner array's, which is
/// its length.
pub fn max_encoded_len_of(n: usize) -> (r: usize)
    ensures
        r == n,
{
    n
}

/// What decoding `n` bytes from an input stream yields: the next `n` bytes
/// as the data field when the stream holds that many, else failure.
pub open spec fn spec_decode(input: Seq<u8>, n: nat, defaults: Seq<Option<String>>) -> Option<
    InstanceView,
> {
    if input.len() >= n {
        Some(spec_from_array(input.subrange(0, n as int), defaults))
    } else {
        None
    }
}

/// Models the generated decoding: the inner array is decoded from the input
/// stream, then converted; it fails exactly when the stream is too short.
pub fn decode_instance(input: &[u8], n: usize, defaults: &Vec<Option<String>>) -> (r: Result<
    Instance,
    ConversionError,
>)
    ensures
        match spec_decode(input@, n as nat, defaults@) {
            Some(iv) => r matches Ok(inst) && inst@ == iv,
            None => r is Err,
        },
        r is Ok <==> input@.len() >= n,
{
    if input.len() >= n {
        let head = slice_subrange(input, 0, n);
        Ok(from_array(slice_to_vec(head), defaults))
    } else {
        Err(ConversionError)
    }
}

/// Models the generated construction from a source of entropy bytes: the
/// instance is built zero-initialized, then its data field is overwritten
/// with the bytes the source provides; it fails exactly when the source
/// cannot provide enough bytes.
pub fn from_entropy_bytes(source: &[u8], n: usize, defaults: &Vec<Option<String>>) -> (r: Result<
    Instance,
    ConversionError,
>)
    ensures
        match spec_decode(source@, n as nat, defaults@) {
            Some(iv) => r matches Ok(inst) && inst@ == iv,
            None => r is Err,
        },
        r is Ok <==> source@.len() >= n,
{
    if source.len() < n {
        return Err(ConversionError);
    }
    let mut zeros: Vec<u8> = Vec::new();
    let mut i: usize = 0;
    while i < n
        invariant
            i <= n,
            zeros@.len() == i,
        decreases n - i,
    {
        zeros.push(0u8);
        i = i + 1;
    }
    let mut inst = from_array(zeros, defaults);
    let mut j: usize = 0;
    while j < n
        invariant
            j <= n,
            n <= source@.len(),
            inst@.data.len() == n,
            inst@.aux == spec_aux_inits(defaults@),
            forall|k: int| 0 <= k < j ==> inst@.data[k] == source@[k],
        decreases n - j,
    {
        let b = *slice_index_get(source, j);
        set_byte(&mut inst, j, b);
        j = j + 1;
    }
    proof {
        assert(inst@.data =~= source@.subrange(0, n as int));
        assert(inst@ =~= spec_from_array(source@.subrange(0, n as int), defaults@));
    }
    Ok(inst)
}

/// Law: decoding what encoding produced succeeds and restores the data
/// field exactly.
pub proof fn lemma_codec_round_trip(v: InstanceView, defaults: Seq<Option<String>>)
    ensures
        spec_decode(v.data, v.data.len(), defaults) == Some(spec_from_array(v.data, defaults)),
        spec_from_array(v.data, defaults).data == v.data,
{
    assert(v.data.subrange(0, v.data.len() as int) =~= v.data);
}

} // verus!
