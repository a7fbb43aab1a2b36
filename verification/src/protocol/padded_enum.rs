//! The tagged wire format: a set of command variants, each with its own
//! payload fields, encoded into one slot of fixed size. A value on the wire
//! is its tag byte, its fields in declared order with nothing between them,
//! and zero bytes up to the size of the slot.
//!
//! Encoding then decoding gives the value back. Decoding then encoding need
//! not give the bytes back: decoding throws the padding away, whatever it
//! held, and encoding writes it as zeros.

use crate::le_bytes::{le_u32, u32_from_le_bytes, u32_le, u32_to_le_bytes, zeros};
use crate::protocol::errors::{DecodeError, EncodeError, LayoutError};
use vstd::prelude::*;

verus! {

/// The shape of one payload field.
#[derive(Clone, Copy, Debug, PartialEq, Eq, Structural)]
pub enum FieldKind {
    /// One byte.
    U8,
    /// Four bytes, least significant first.
    U32,
    /// This many bytes, as they are.
    Bytes(usize),
}

/// The value of one payload field.
#[derive(Clone, Debug, PartialEq, Eq)]
pub enum FieldValue {
    U8(u8),
    U32(u32),
    Bytes(Vec<u8>),
}

/// What a field value is, whatever memory holds it.
pub enum FieldModel {
    U8(u8),
    U32(u32),
    Bytes(Seq<u8>),
}

impl View for FieldValue {
    type V = FieldModel;

    open spec fn view(&self) -> FieldModel {
        match self {
            FieldValue::U8(x) => FieldModel::U8(*x),
            FieldValue::U32(x) => FieldModel::U32(*x),
            FieldValue::Bytes(b) => FieldModel::Bytes(b@),
        }
    }
}

/// One variant as declared: its tag, its fields in order, and the number of
/// padding bytes that follow them.
#[derive(Clone, Debug, PartialEq, Eq)]
pub struct VariantLayout {
    pub tag: u8,
    pub fields: Vec<FieldKind>,
    pub pad: usize,
}

/// What a declared variant is.
pub struct VariantModel {
    pub tag: u8,
    pub fields: Seq<FieldKind>,
    pub pad: nat,
}

impl View for VariantLayout {
    type V = VariantModel;

    open spec fn view(&self) -> VariantModel {
        VariantModel { tag: self.tag, fields: self.fields@, pad: self.pad as nat }
    }
}

/// A value of a tagged union: the tag of its variant and the values of that
/// variant's fields.
#[derive(Clone, Debug, PartialEq, Eq)]
pub struct PaddedValue {
    pub tag: u8,
    pub fields: Vec<FieldValue>,
}

/// What a value of a tagged union is.
pub struct ValueModel {
    pub tag: u8,
    pub fields: Seq<FieldModel>,
}

/// The models of a sequence of field values, one for one.
pub open spec fn field_models(fields: Seq<FieldValue>) -> Seq<FieldModel> {
    Seq::new(fields.len(), |i: int| fields[i]@)
}

/// The models of a sequence of declared variants, one for one.
pub open spec fn variant_models(variants: Seq<VariantLayout>) -> Seq<VariantModel> {
    Seq::new(variants.len(), |i: int| variants[i]@)
}

impl View for PaddedValue {
    type V = ValueModel;

    open spec fn view(&self) -> ValueModel {
        ValueModel { tag: self.tag, fields: field_models(self.fields@) }
    }
}

/// Bytes that a field of this kind takes on the wire.
pub open spec fn kind_width(kind: FieldKind) -> nat {
    match kind {
        FieldKind::U8 => 1,
        FieldKind::U32 => 4,
        FieldKind::Bytes(n) => n as nat,
    }
}

/// Bytes that fields of these kinds take on the wire, one after the other.
pub open spec fn body_width(kinds: Seq<FieldKind>) -> nat
    decreases kinds.len(),
{
    if kinds.len() == 0 {
        0
    } else {
        body_width(kinds.drop_last()) + kind_width(kinds.last())
    }
}

/// Whether `value` is a value of a field of this kind.
pub open spec fn field_fits(kind: FieldKind, value: FieldModel) -> bool {
    match (kind, value) {
        (FieldKind::U8, FieldModel::U8(_)) => true,
        (FieldKind::U32, FieldModel::U32(_)) => true,
        (FieldKind::Bytes(n), FieldModel::Bytes(b)) => b.len() == n,
        _ => false,
    }
}

/// Whether `values` are values of fields of these kinds, one for one.
pub open spec fn fields_fit(kinds: Seq<FieldKind>, values: Seq<FieldModel>) -> bool {
    &&& kinds.len() == values.len()
    &&& forall|i: int| 0 <= i < kinds.len() ==> field_fits(kinds[i], #[trigger] values[i])
}

/// The bytes of one field on the wire.
pub open spec fn field_wire(value: FieldModel) -> Seq<u8> {
    match value {
        FieldModel::U8(x) => seq![x],
        FieldModel::U32(x) => u32_le(x),
        FieldModel::Bytes(b) => b,
    }
}

/// The bytes of the fields on the wire, in order, with nothing between
/// them.
pub open spec fn body_wire(values: Seq<FieldModel>) -> Seq<u8>
    decreases values.len(),
{
    if values.len() == 0 {
        Seq::empty()
    } else {
        body_wire(values.drop_last()) + field_wire(values.last())
    }
}

/// The field of this kind that starts at the first of `bytes`.
pub open spec fn read_field(kind: FieldKind, bytes: Seq<u8>) -> FieldModel {
    match kind {
        FieldKind::U8 => FieldModel::U8(bytes[0]),
        FieldKind::U32 => FieldModel::U32(le_u32(bytes)),
        FieldKind::Bytes(n) => FieldModel::Bytes(bytes.take(n as int)),
    }
}

/// The fields of these kinds that start at the first of `bytes`.
pub open spec fn read_body(kinds: Seq<FieldKind>, bytes: Seq<u8>) -> Seq<FieldModel>
    decreases kinds.len(),
{
    if kinds.len() == 0 {
        Seq::empty()
    } else {
        read_body(kinds.drop_last(), bytes).push(
            read_field(kinds.last(), bytes.skip(body_width(kinds.drop_last()) as int)),
        )
    }
}

/// Whether the variant fills a slot of `size` bytes exactly: the tag, the
/// fields and the padding.
pub open spec fn variant_fills(variant: VariantModel, size: nat) -> bool {
    1 + body_width(variant.fields) + variant.pad == size
}

/// Whether no two variants share a tag.
pub open spec fn tags_distinct(variants: Seq<VariantModel>) -> bool {
    forall|i: int, j: int|
        0 <= i < j < variants.len() ==> (#[trigger] variants[i]).tag != (#[trigger] variants[j]).tag
}

/// Whether the variants make a wire format with slots of `size` bytes:
/// every one of them fills the slot, and no tag is used twice.
pub open spec fn layout_ok(size: nat, variants: Seq<VariantModel>) -> bool {
    &&& forall|i: int| 0 <= i < variants.len() ==> variant_fills(#[trigger] variants[i], size)
    &&& tags_distinct(variants)
}

/// Whether some variant has this tag.
pub open spec fn has_tag(variants: Seq<VariantModel>, tag: u8) -> bool {
    exists|i: int| 0 <= i < variants.len() && (#[trigger] variants[i]).tag == tag
}

/// A variant with this tag, where there is one.
pub open spec fn variant_of(variants: Seq<VariantModel>, tag: u8) -> VariantModel {
    let i = choose|i: int| 0 <= i < variants.len() && (#[trigger] variants[i]).tag == tag;
    variants[i]
}

/// Whether `value` is a value of one of the variants.
pub open spec fn accepts(variants: Seq<VariantModel>, value: ValueModel) -> bool {
    has_tag(variants, value.tag) && fields_fit(variant_of(variants, value.tag).fields, value.fields)
}

/// The bytes of `value` on the wire: tag, fields, zero padding.
pub open spec fn to_wire_spec(variants: Seq<VariantModel>, value: ValueModel) -> Seq<u8> {
    seq![value.tag] + body_wire(value.fields) + zeros(variant_of(variants, value.tag).pad)
}

/// The error with which `to_wire` turns `value` down.
pub open spec fn encode_error(variants: Seq<VariantModel>, value: ValueModel) -> EncodeError {
    if !has_tag(variants, value.tag) {
        EncodeError::UnknownVariant { tag: value.tag }
    } else {
        EncodeError::FieldMismatch { tag: value.tag }
    }
}

/// What `bytes` decode to: the value whose tag is the first byte and whose
/// fields follow it, or the reason why there is none. Bytes after the
/// fields are not looked at.
pub open spec fn from_wire_spec(variants: Seq<VariantModel>, bytes: Seq<u8>) -> Result<
    ValueModel,
    DecodeError,
> {
    if bytes.len() == 0 {
        Err(DecodeError::ShortPayload { needed: 1, len: 0 })
    } else if !has_tag(variants, bytes[0]) {
        Err(DecodeError::UnknownCommand { command_id: bytes[0] })
    } else {
        let variant = variant_of(variants, bytes[0]);
        if bytes.len() < 1 + body_width(variant.fields) {
            Err(
                DecodeError::ShortPayload {
                    needed: (1 + body_width(variant.fields)) as usize,
                    len: bytes.len() as usize,
                },
            )
        } else {
            Ok(ValueModel { tag: bytes[0], fields: read_body(variant.fields, bytes.skip(1)) })
        }
    }
}

/// Where values fit their kinds, each value fits its kind.
pub proof fn lemma_fit_at(kinds: Seq<FieldKind>, values: Seq<FieldModel>, i: int)
    requires
        0 <= i < kinds.len(),
    ensures
        fields_fit(kinds, values) ==> i < values.len() && field_fits(kinds[i], values[i]),
{
    if fields_fit(kinds, values) {
        assert(field_fits(kinds[i], values[i]));
    }
}

/// One more kind adds its width.
pub proof fn lemma_body_width_push(kinds: Seq<FieldKind>, kind: FieldKind)
    ensures
        body_width(kinds.push(kind)) == body_width(kinds) + kind_width(kind),
{
    assert(kinds.push(kind).drop_last() =~= kinds);
}

/// One more value adds its bytes.
pub proof fn lemma_body_wire_push(values: Seq<FieldModel>, value: FieldModel)
    ensures
        body_wire(values.push(value)) == body_wire(values) + field_wire(value),
{
    assert(values.push(value).drop_last() =~= values);
}

/// One more kind reads one more field, behind the others.
pub proof fn lemma_read_body_push(kinds: Seq<FieldKind>, kind: FieldKind, bytes: Seq<u8>)
    ensures
        read_body(kinds.push(kind), bytes) == read_body(kinds, bytes).push(
            read_field(kind, bytes.skip(body_width(kinds) as int)),
        ),
{
    assert(kinds.push(kind).drop_last() =~= kinds);
}

/// Fields that fit their kinds take the bytes that the kinds declare.
pub proof fn lemma_body_wire_len(kinds: Seq<FieldKind>, values: Seq<FieldModel>)
    requires
        fields_fit(kinds, values),
    ensures
        body_wire(values).len() == body_width(kinds),
    decreases kinds.len(),
{
    if kinds.len() > 0 {
        assert(fields_fit(kinds.drop_last(), values.drop_last())) by {
            assert forall|i: int| 0 <= i < kinds.len() - 1 implies field_fits(
                kinds.drop_last()[i],
                #[trigger] values.drop_last()[i],
            ) by {
                assert(field_fits(kinds[i], values[i]));
            }
        }
        lemma_body_wire_len(kinds.drop_last(), values.drop_last());
        assert(field_fits(kinds.last(), values.last()));
    }
}

/// A field read from its own bytes is the field, whatever follows them.
pub proof fn lemma_read_field_wire(kind: FieldKind, value: FieldModel, rest: Seq<u8>)
    requires
        field_fits(kind, value),
    ensures
        read_field(kind, field_wire(value) + rest) == value,
{
    match value {
        FieldModel::U8(x) => {},
        FieldModel::U32(x) => {
            crate::le_bytes::lemma_le_u32_of_u32_le(x);
            let joined = u32_le(x) + rest;
            assert(joined[0] == u32_le(x)[0]);
            assert(joined[1] == u32_le(x)[1]);
            assert(joined[2] == u32_le(x)[2]);
            assert(joined[3] == u32_le(x)[3]);
        },
        FieldModel::Bytes(b) => {
            assert((b + rest).take(b.len() as int) =~= b);
        },
    }
}

/// Fields read from their own bytes are the fields, whatever follows them.
pub proof fn lemma_read_body_wire(
    kinds: Seq<FieldKind>,
    values: Seq<FieldModel>,
    rest: Seq<u8>,
)
    requires
        fields_fit(kinds, values),
    ensures
        read_body(kinds, body_wire(values) + rest) == values,
    decreases kinds.len(),
{
    if kinds.len() == 0 {
        assert(read_body(kinds, body_wire(values) + rest) =~= values);
    } else {
        let head_kinds = kinds.drop_last();
        let head_values = values.drop_last();
        assert(fields_fit(head_kinds, head_values)) by {
            assert forall|i: int| 0 <= i < head_kinds.len() implies field_fits(
                head_kinds[i],
                #[trigger] head_values[i],
            ) by {
                assert(field_fits(kinds[i], values[i]));
            }
        }
        let last_bytes = field_wire(values.last());
        let all = body_wire(values) + rest;
        assert(all =~= body_wire(head_values) + (last_bytes + rest));
        lemma_read_body_wire(head_kinds, head_values, last_bytes + rest);
        lemma_body_wire_len(head_kinds, head_values);
        assert(all.skip(body_width(head_kinds) as int) =~= last_bytes + rest);
        assert(field_fits(kinds.last(), values.last()));
        lemma_read_field_wire(kinds.last(), values.last(), rest);
        assert(read_body(kinds, all) =~= values);
    }
}

/// Where no tag is used twice, the variant with the tag of the variant at
/// place `i` is that variant.
pub proof fn lemma_variant_of_unique(variants: Seq<VariantModel>, i: int)
    requires
        tags_distinct(variants),
        0 <= i < variants.len(),
    ensures
        has_tag(variants, variants[i].tag),
        variant_of(variants, variants[i].tag) == variants[i],
{
    let tag = variants[i].tag;
    let j = choose|j: int| 0 <= j < variants.len() && (#[trigger] variants[j]).tag == tag;
    if j < i {
        assert(variants[j].tag != variants[i].tag);
    } else if i < j {
        assert(variants[i].tag != variants[j].tag);
    }
}

/// Every value of the format takes the whole slot on the wire, no more and
/// no less.
pub proof fn lemma_wire_size(size: nat, variants: Seq<VariantModel>, value: ValueModel)
    requires
        layout_ok(size, variants),
        accepts(variants, value),
    ensures
        to_wire_spec(variants, value).len() == size,
{
    let i = choose|i: int| 0 <= i < variants.len() && (#[trigger] variants[i]).tag == value.tag;
    assert(variant_fills(variants[i], size));
    lemma_body_wire_len(variant_of(variants, value.tag).fields, value.fields);
}

/// Decoding what was encoded gives the value back, field for field.
pub proof fn lemma_round_trip(size: nat, variants: Seq<VariantModel>, value: ValueModel)
    requires
        layout_ok(size, variants),
        accepts(variants, value),
    ensures
        from_wire_spec(variants, to_wire_spec(variants, value)) == Ok::<ValueModel, DecodeError>(
            value,
        ),
{
    let variant = variant_of(variants, value.tag);
    let wire = to_wire_spec(variants, value);
    let pad = zeros(variant.pad);
    lemma_body_wire_len(variant.fields, value.fields);
    assert(wire[0] == value.tag);
    assert(wire.skip(1) =~= body_wire(value.fields) + pad);
    lemma_read_body_wire(variant.fields, value.fields, pad);
}

/// A wire format: the size of its slot and its variants. One exists only if
/// every variant fills the slot exactly and no tag is used twice.
#[derive(Debug)]
pub struct PaddedEnum {
    size: usize,
    variants: Vec<VariantLayout>,
}

impl PaddedEnum {
    #[verifier::type_invariant]
    spec fn well_formed(&self) -> bool {
        layout_ok(self.size as nat, variant_models(self.variants@))
    }

    /// Bytes in one slot.
    pub closed spec fn spec_size(&self) -> nat {
        self.size as nat
    }

    /// The variants, in declared order.
    pub closed spec fn spec_variants(&self) -> Seq<VariantModel> {
        variant_models(self.variants@)
    }

    /// Makes the wire format with slots of `size` bytes, after checking every
    /// variant. The first variant that does not fill the slot is reported;
    /// if all do, the tag of the first variant that repeats an earlier tag
    /// is.
    pub fn new(size: usize, variants: Vec<VariantLayout>) -> (result: Result<Self, LayoutError>)
        ensures
            layout_ok(size as nat, variant_models(variants@)) <==> result is Ok,
            result matches Ok(layout) ==> layout.spec_size() == size && layout.spec_variants()
                == variant_models(variants@),
            result matches Err(LayoutError::SizeMismatch { variant }) ==> {
                &&& variant < variants@.len()
                &&& !variant_fills(variants@[variant as int]@, size as nat)
                &&& forall|i: int|
                    0 <= i < variant ==> variant_fills((#[trigger] variants@[i])@, size as nat)
            },
            result matches Err(LayoutError::DuplicateTag { tag }) ==> {
                &&& forall|i: int|
                    0 <= i < variants@.len() ==> variant_fills(
                        (#[trigger] variants@[i])@,
                        size as nat,
                    )
                &&& exists|i: int, j: int|
                    0 <= i < j < variants@.len() && (#[trigger] variants@[i]).tag == tag && (
                    #[trigger] variants@[j]).tag == tag && tags_distinct(
                        variant_models(variants@).take(j),
                    )
            },
    {
        let ghost models = variant_models(variants@);
        let mut i: usize = 0;
        while i < variants.len()
            invariant
                i <= variants@.len(),
                models == variant_models(variants@),
                forall|k: int| 0 <= k < i ==> variant_fills((#[trigger] variants@[k])@, size as nat),
            decreases variants@.len() - i,
        {
            if !variant_fills_slot(&variants[i], size) {
                assert(!variant_fills(models[i as int], size as nat));
                return Err(LayoutError::SizeMismatch { variant: i });
            }
            i += 1;
        }
        let mut j: usize = 0;
        while j < variants.len()
            invariant
                j <= variants@.len(),
                models == variant_models(variants@),
                forall|k: int|
                    0 <= k < variants@.len() ==> variant_fills(
                        (#[trigger] variants@[k])@,
                        size as nat,
                    ),
                forall|a: int, b: int|
                    0 <= a < b < j ==> (#[trigger] variants@[a]).tag != (#[trigger] variants@[b]).tag,
            decreases variants@.len() - j,
        {
            let mut k: usize = 0;
            while k < j
                invariant
                    k <= j,
                    j < variants@.len(),
                    models == variant_models(variants@),
                    forall|a: int, b: int|
                        0 <= a < b < j ==> (#[trigger] variants@[a]).tag != (
                        #[trigger] variants@[b]).tag,
                    forall|x: int|
                        0 <= x < variants@.len() ==> variant_fills(
                            (#[trigger] variants@[x])@,
                            size as nat,
                        ),
                    forall|a: int|
                        0 <= a < k ==> (#[trigger] variants@[a]).tag != variants@[j as int].tag,
                decreases j - k,
            {
                if variants[k].tag == variants[j].tag {
                    assert(models[k as int].tag == models[j as int].tag);
                    assert(!tags_distinct(models));
                    assert(tags_distinct(models.take(j as int))) by {
                        assert forall|a: int, b: int| 0 <= a < b < j implies (
                        #[trigger] models.take(j as int)[a]).tag != (#[trigger] models.take(
                            j as int,
                        )[b]).tag by {
                            assert(variants@[a].tag != variants@[b].tag);
                        }
                    }
                    return Err(LayoutError::DuplicateTag { tag: variants[k].tag });
                }
                k += 1;
            }
            j += 1;
        }
        assert(tags_distinct(models)) by {
            assert forall|a: int, b: int| 0 <= a < b < models.len() implies (
            #[trigger] models[a]).tag != (#[trigger] models[b]).tag by {
                assert(variants@[a].tag != variants@[b].tag);
            }
        }
        assert(layout_ok(size as nat, models)) by {
            assert forall|k: int| 0 <= k < models.len() implies variant_fills(
                #[trigger] models[k],
                size as nat,
            ) by {
                assert(variant_fills(variants@[k]@, size as nat));
            }
        }
        Ok(PaddedEnum { size, variants })
    }

    /// Bytes in one slot.
    pub fn size(&self) -> (size: usize)
        ensures
            size == self.spec_size(),
            layout_ok(self.spec_size(), self.spec_variants()),
    {
        proof {
            use_type_invariant(self);
        }
        self.size
    }

    /// The place of the variant with this tag.
    fn find(&self, tag: u8) -> (found: Option<usize>)
        ensures
            layout_ok(self.spec_size(), self.spec_variants()),
            found is Some <==> has_tag(self.spec_variants(), tag),
            found matches Some(i) ==> i < self.variants@.len() && self.variants@[i as int]@
                == variant_of(self.spec_variants(), tag),
    {
        proof {
            use_type_invariant(self);
        }
        let ghost models = self.spec_variants();
        let mut i: usize = 0;
        while i < self.variants.len()
            invariant
                i <= self.variants@.len(),
                models == variant_models(self.variants@),
                models == self.spec_variants(),
                layout_ok(self.spec_size(), models),
                forall|k: int| 0 <= k < i ==> (#[trigger] models[k]).tag != tag,
            decreases self.variants@.len() - i,
        {
            if self.variants[i].tag == tag {
                proof {
                    assert(models[i as int].tag == tag);
                    lemma_variant_of_unique(models, i as int);
                }
                return Some(i);
            }
            i += 1;
        }
        None
    }

    /// Encodes `value`: the tag, the fields in order, and zeros up to the
    /// size of the slot. Every value of the format is encoded; a value with
    /// a tag that the format lacks, or with other fields than its variant
    /// declares, is turned down.
    pub fn to_wire(&self, value: &PaddedValue) -> (result: Result<Vec<u8>, EncodeError>)
        ensures
            accepts(self.spec_variants(), value@) ==> result is Ok && result->Ok_0@
                == to_wire_spec(self.spec_variants(), value@) && result->Ok_0@.len()
                == self.spec_size(),
            !accepts(self.spec_variants(), value@) ==> result == Err::<Vec<u8>, EncodeError>(
                encode_error(self.spec_variants(), value@),
            ),
    {
        let place = match self.find(value.tag) {
            Some(place) => place,
            None => {
                return Err(EncodeError::UnknownVariant { tag: value.tag });
            },
        };
        let variant = &self.variants[place];
        if !values_fit(&variant.fields, &value.fields) {
            return Err(EncodeError::FieldMismatch { tag: value.tag });
        }
        let mut out: Vec<u8> = Vec::new();
        out.push(value.tag);
        let ghost models = field_models(value.fields@);
        let mut i: usize = 0;
        assert(models.take(0) =~= Seq::empty());
        assert(out@ =~= seq![value.tag] + body_wire(models.take(0)));
        while i < value.fields.len()
            invariant
                i <= value.fields@.len(),
                models == field_models(value.fields@),
                out@ == seq![value.tag] + body_wire(models.take(i as int)),
            decreases value.fields@.len() - i,
        {
            let ghost before = out@;
            match &value.fields[i] {
                FieldValue::U8(x) => {
                    out.push(*x);
                },
                FieldValue::U32(x) => {
                    let bytes = u32_to_le_bytes(*x);
                    out.push(bytes[0]);
                    out.push(bytes[1]);
                    out.push(bytes[2]);
                    out.push(bytes[3]);
                },
                FieldValue::Bytes(b) => {
                    let mut k: usize = 0;
                    while k < b.len()
                        invariant
                            k <= b@.len(),
                            out@ == before + b@.take(k as int),
                        decreases b@.len() - k,
                    {
                        out.push(b[k]);
                        assert(b@.take(k + 1) =~= b@.take(k as int).push(b@[k as int]));
                        k += 1;
                    }
                    assert(b@.take(b@.len() as int) =~= b@);
                },
            }
            proof {
                assert(out@ =~= before + field_wire(models[i as int]));
                assert(models.take(i + 1) =~= models.take(i as int).push(models[i as int]));
                lemma_body_wire_push(models.take(i as int), models[i as int]);
            }
            i += 1;
        }
        assert(models.take(models.len() as int) =~= models);
        let ghost body = out@;
        let mut p: usize = 0;
        while p < variant.pad
            invariant
                p <= variant.pad,
                out@ == body + zeros(p as nat),
            decreases variant.pad - p,
        {
            out.push(0u8);
            assert(zeros((p + 1) as nat) =~= zeros(p as nat).push(0u8));
            p += 1;
        }
        proof {
            lemma_wire_size(self.spec_size(), self.spec_variants(), value@);
        }
        Ok(out)
    }

    /// Decodes the value whose tag is the first of `bytes`. It fails if
    /// there is no first byte, if no variant has that tag, or if fewer
    /// bytes follow the tag than the variant's fields take. What follows
    /// the fields is padding and is thrown away.
    pub fn from_wire(&self, bytes: &[u8]) -> (result: Result<PaddedValue, DecodeError>)
        ensures
            result matches Ok(value) ==> from_wire_spec(self.spec_variants(), bytes@) == Ok::<
                ValueModel,
                DecodeError,
            >(value@) && accepts(self.spec_variants(), value@),
            result matches Err(e) ==> from_wire_spec(self.spec_variants(), bytes@) == Err::<
                ValueModel,
                DecodeError,
            >(e),
    {
        if bytes.len() == 0 {
            return Err(DecodeError::ShortPayload { needed: 1, len: 0 });
        }
        let tag: u8 = bytes[0];
        let place = match self.find(tag) {
            Some(place) => place,
            None => {
                return Err(DecodeError::UnknownCommand { command_id: tag });
            },
        };
        let variant = &self.variants[place];
        proof {
            use_type_invariant(self);
            assert(variant_fills(self.spec_variants()[place as int], self.size as nat));
        }
        let needed: usize = self.size - variant.pad;
        if bytes.len() < needed {
            return Err(DecodeError::ShortPayload { needed, len: bytes.len() });
        }
        let ghost kinds = variant.fields@;
        let ghost body = bytes@.skip(1);
        let mut fields: Vec<FieldValue> = Vec::new();
        let mut pos: usize = 1;
        let mut i: usize = 0;
        assert(kinds.take(0) =~= Seq::empty());
        assert(field_models(fields@) =~= read_body(kinds.take(0), body));
        while i < variant.fields.len()
            invariant
                i <= kinds.len(),
                kinds == variant.fields@,
                body == bytes@.skip(1),
                1 + body_width(kinds) <= bytes@.len(),
                bytes@.len() <= usize::MAX,
                pos == 1 + body_width(kinds.take(i as int)),
                pos <= 1 + body_width(kinds),
                field_models(fields@) == read_body(kinds.take(i as int), body),
                fields_fit(kinds.take(i as int), field_models(fields@)),
            decreases kinds.len() - i,
        {
            let kind = variant.fields[i];
            proof {
                assert(kind == kinds[i as int]);
                assert(kinds.take(i + 1) =~= kinds.take(i as int).push(kinds[i as int]));
                lemma_body_width_push(kinds.take(i as int), kinds[i as int]);
                lemma_read_body_push(kinds.take(i as int), kinds[i as int], body);
                lemma_body_width_take(kinds, i as int + 1);
                assert(body.skip(pos - 1) =~= bytes@.skip(pos as int));
                assert(pos + kind_width(kind) <= bytes@.len());
            }
            let ghost old_models = field_models(fields@);
            let field = match kind {
                FieldKind::U8 => FieldValue::U8(bytes[pos]),
                FieldKind::U32 => {
                    let word = vstd::slice::slice_subrange(bytes, pos, pos + 4);
                    proof {
                        let tail = bytes@.skip(pos as int);
                        assert(word@[0] == tail[0]);
                        assert(word@[1] == tail[1]);
                        assert(word@[2] == tail[2]);
                        assert(word@[3] == tail[3]);
                    }
                    FieldValue::U32(u32_from_le_bytes(word))
                },
                FieldKind::Bytes(n) => {
                    let mut taken: Vec<u8> = Vec::new();
                    let mut k: usize = 0;
                    while k < n
                        invariant
                            k <= n,
                            pos + n <= bytes@.len(),
                            bytes@.len() <= usize::MAX,
                            taken@ == bytes@.skip(pos as int).take(k as int),
                        decreases n - k,
                    {
                        taken.push(bytes[pos + k]);
                        assert(bytes@.skip(pos as int).take(k + 1) =~= bytes@.skip(
                            pos as int,
                        ).take(k as int).push(bytes@[pos + k]));
                        k += 1;
                    }
                    FieldValue::Bytes(taken)
                },
            };
            assert(field@ == read_field(kind, bytes@.skip(pos as int)));
            assert(field_fits(kind, field@));
            pos = pos + width_of(kind);
            fields.push(field);
            proof {
                assert(field_models(fields@) =~= old_models.push(field@));
            }
            i += 1;
        }
        assert(kinds.take(kinds.len() as int) =~= kinds);
        Ok(PaddedValue { tag, fields })
    }
}

/// The first kinds take no more bytes than all of them.
pub proof fn lemma_body_width_take(kinds: Seq<FieldKind>, n: int)
    requires
        0 <= n <= kinds.len(),
    ensures
        body_width(kinds.take(n)) <= body_width(kinds),
    decreases kinds.len(),
{
    if n == kinds.len() {
        assert(kinds.take(n) =~= kinds);
    } else {
        assert(kinds.drop_last().take(n) =~= kinds.take(n));
        lemma_body_width_take(kinds.drop_last(), n);
    }
}

/// Bytes that a field of this kind takes on the wire.
fn width_of(kind: FieldKind) -> (width: usize)
    ensures
        width == kind_width(kind),
{
    match kind {
        FieldKind::U8 => 1,
        FieldKind::U32 => 4,
        FieldKind::Bytes(n) => n,
    }
}

/// Whether the variant, with its tag byte, fills a slot of `size` bytes.
fn variant_fills_slot(variant: &VariantLayout, size: usize) -> (fills: bool)
    ensures
        fills == variant_fills(variant@, size as nat),
{
    if size == 0 || variant.pad > size - 1 {
        return false;
    }
    let room: usize = size - 1 - variant.pad;
    let ghost kinds = variant.fields@;
    let mut width: usize = 0;
    let mut i: usize = 0;
    assert(kinds.take(0) =~= Seq::empty());
    while i < variant.fields.len()
        invariant
            i <= kinds.len(),
            kinds == variant.fields@,
            width == body_width(kinds.take(i as int)),
            width <= room,
            room + 1 + variant.pad == size,
        decreases kinds.len() - i,
    {
        let w: usize = width_of(variant.fields[i]);
        proof {
            assert(kinds.take(i + 1) =~= kinds.take(i as int).push(kinds[i as int]));
            lemma_body_width_push(kinds.take(i as int), kinds[i as int]);
            lemma_body_width_take(kinds, i as int + 1);
        }
        if w > room - width {
            assert(body_width(kinds) > room);
            return false;
        }
        width = width + w;
        i += 1;
    }
    assert(kinds.take(kinds.len() as int) =~= kinds);
    width == room
}

/// Whether `values` are values of fields of these kinds, one for one.
fn values_fit(kinds: &Vec<FieldKind>, values: &Vec<FieldValue>) -> (fit: bool)
    ensures
        fit == fields_fit(kinds@, field_models(values@)),
{
    if kinds.len() != values.len() {
        return false;
    }
    let ghost models = field_models(values@);
    let mut i: usize = 0;
    while i < kinds.len()
        invariant
            i <= kinds@.len(),
            kinds@.len() == values@.len(),
            models == field_models(values@),
            forall|k: int| 0 <= k < i ==> field_fits(kinds@[k], #[trigger] models[k]),
        decreases kinds@.len() - i,
    {
        let fits = match (kinds[i], &values[i]) {
            (FieldKind::U8, FieldValue::U8(_)) => true,
            (FieldKind::U32, FieldValue::U32(_)) => true,
            (FieldKind::Bytes(n), FieldValue::Bytes(b)) => b.len() == n,
            _ => false,
        };
        if !fits {
            assert(!field_fits(kinds@[i as int], models[i as int]));
            return false;
        }
        i += 1;
    }
    true
}

} // verus!
