//! Structure overlays: typed, offset-addressed views of foreign bytes.
//!
//! An overlay names fields of a foreign structure by explicit byte offset and
//! width. It owns nothing: reading a field reads `width` bytes at
//! `base + offset` and interprets them, writing stores them back, and nothing
//! is inferred about padding or alignment.

use crate::bytes::{
    le_bytes,
    le_value,
    lemma_le_bytes_len,
    lemma_le_value_bound,
    lemma_le_value_of_bytes,
    lemma_pow256_monotonic,
    lemma_pow256_values,
    pow256,
};
use crate::memory::{
    lemma_changes_only,
    lemma_store_frames,
    ImageView,
    MemoryImage,
    POINTER_WIDTH,
};
use vstd::prelude::*;

verus! {

/// How the bytes of a field are read.
#[derive(Clone, Copy, Debug, PartialEq, Eq, Structural)]
pub enum Interpretation {
    /// A little-endian unsigned integer of one to eight bytes.
    Integer,
    /// A floating-point number of four or eight bytes, carried as its bits.
    Float,
    /// One byte: zero is false, anything else true.
    Boolean,
    /// Another overlay that starts at the field's address.
    NestedOverlay,
    /// The address of a foreign function, eight bytes.
    FunctionPointer,
    /// Bytes that are copied and never interpreted.
    Blob,
}

/// One field of a foreign structure.
#[derive(Clone, Copy, Debug)]
pub struct FieldDescriptor {
    pub name: &'static str,
    pub offset: usize,
    pub width: usize,
    pub interpretation: Interpretation,
}

/// What a field holds.
#[derive(Debug)]
pub enum FieldValue {
    Integer(u64),
    Float(u64),
    Boolean(bool),
    NestedOverlay(usize),
    FunctionPointer(usize),
    Blob(Vec<u8>),
}

/// What a field holds, as a mathematical value.
pub enum FieldContent {
    Integer(u64),
    Float(u64),
    Boolean(bool),
    NestedOverlay(usize),
    FunctionPointer(usize),
    Blob(Seq<u8>),
}

impl View for FieldValue {
    type V = FieldContent;

    open spec fn view(&self) -> FieldContent {
        match self {
            FieldValue::Integer(value) => FieldContent::Integer(*value),
            FieldValue::Float(bits) => FieldContent::Float(*bits),
            FieldValue::Boolean(flag) => FieldContent::Boolean(*flag),
            FieldValue::NestedOverlay(addr) => FieldContent::NestedOverlay(*addr),
            FieldValue::FunctionPointer(addr) => FieldContent::FunctionPointer(*addr),
            FieldValue::Blob(data) => FieldContent::Blob(data@),
        }
    }
}

/// Whether `value` can be spelled in `width` bytes.
pub fn fits_width(value: u64, width: usize) -> (fits: bool)
    ensures
        fits == (value < pow256(width as nat)),
{
    proof {
        lemma_pow256_values();
    }
    if width >= 8 {
        proof {
            lemma_pow256_monotonic(8, width as nat);
        }
        return true;
    }
    let mut limit: u64 = 1;
    let mut i: usize = 0;
    while i < width
        invariant
            i <= width < 8,
            limit == pow256(i as nat),
        decreases width - i,
    {
        proof {
            lemma_pow256_monotonic((i + 1) as nat, 7);
            reveal_with_fuel(pow256, 8);
        }
        limit = limit * 256;
        i = i + 1;
    }
    value < limit
}

impl FieldDescriptor {
    /// The field `name` of `width` bytes at `offset`.
    pub open spec fn spec_new(
        name: &'static str,
        offset: usize,
        width: usize,
        interpretation: Interpretation,
    ) -> FieldDescriptor {
        FieldDescriptor { name, offset, width, interpretation }
    }

    /// The field `name` of `width` bytes at `offset`.
    pub fn new(
        name: &'static str,
        offset: usize,
        width: usize,
        interpretation: Interpretation,
    ) -> (field: FieldDescriptor)
        ensures
            field == FieldDescriptor::spec_new(name, offset, width, interpretation),
    {
        FieldDescriptor { name, offset, width, interpretation }
    }

    /// Whether the width suits the interpretation.
    pub open spec fn well_formed(self) -> bool {
        match self.interpretation {
            Interpretation::Integer => 1 <= self.width <= 8,
            Interpretation::Float => self.width == 4 || self.width == 8,
            Interpretation::Boolean => self.width == 1,
            Interpretation::FunctionPointer => self.width == POINTER_WIDTH,
            Interpretation::NestedOverlay => true,
            Interpretation::Blob => true,
        }
    }

    pub fn is_well_formed(&self) -> (ok: bool)
        ensures
            ok == self.well_formed(),
    {
        match self.interpretation {
            Interpretation::Integer => 1 <= self.width && self.width <= 8,
            Interpretation::Float => self.width == 4 || self.width == 8,
            Interpretation::Boolean => self.width == 1,
            Interpretation::FunctionPointer => self.width == POINTER_WIDTH,
            Interpretation::NestedOverlay => true,
            Interpretation::Blob => true,
        }
    }

    /// The address of the field in a structure that starts at `base`.
    pub open spec fn location(self, base: int) -> int {
        base + self.offset
    }

    /// Whether the field of the structure at `base` lies inside `view`.
    pub open spec fn mapped(self, view: ImageView, base: int) -> bool {
        view.covers(self.location(base), self.width as int)
    }

    /// Whether this field and `other` share no byte.
    pub open spec fn disjoint(self, other: FieldDescriptor) -> bool {
        self.offset + self.width <= other.offset || other.offset + other.width <= self.offset
    }

    /// What the field of the structure at `base` holds in `view`; `None`
    /// where its bytes are not all in `view` or its width does not suit its
    /// interpretation.
    pub open spec fn content_in(self, view: ImageView, base: int) -> Option<FieldContent> {
        let addr = self.location(base);
        let bytes = view.slice(addr, self.width as int);
        if !self.well_formed() || !self.mapped(view, base) {
            None
        } else {
            match self.interpretation {
                Interpretation::Integer => Some(FieldContent::Integer(le_value(bytes) as u64)),
                Interpretation::Float => Some(FieldContent::Float(le_value(bytes) as u64)),
                Interpretation::Boolean => Some(FieldContent::Boolean(bytes[0] != 0)),
                Interpretation::NestedOverlay => Some(FieldContent::NestedOverlay(addr as usize)),
                Interpretation::FunctionPointer => if le_value(bytes) <= usize::MAX {
                    Some(FieldContent::FunctionPointer(le_value(bytes) as usize))
                } else {
                    None
                },
                Interpretation::Blob => Some(FieldContent::Blob(bytes)),
            }
        }
    }

    /// Whether `value` is of the field's interpretation and fits its width.
    /// A nested overlay admits none: it is written through its own fields.
    pub open spec fn admits(self, value: FieldContent) -> bool {
        self.well_formed() && match value {
            FieldContent::Integer(v) => self.interpretation == Interpretation::Integer && v
                < pow256(self.width as nat),
            FieldContent::Float(bits) => self.interpretation == Interpretation::Float && bits
                < pow256(self.width as nat),
            FieldContent::Boolean(_) => self.interpretation == Interpretation::Boolean,
            FieldContent::NestedOverlay(_) => false,
            FieldContent::FunctionPointer(_) => self.interpretation
                == Interpretation::FunctionPointer,
            FieldContent::Blob(data) => self.interpretation == Interpretation::Blob && data.len()
                == self.width,
        }
    }

    /// The bytes that spell `value` in this field.
    pub open spec fn encoding(self, value: FieldContent) -> Seq<u8> {
        match value {
            FieldContent::Integer(v) => le_bytes(v as nat, self.width as nat),
            FieldContent::Float(bits) => le_bytes(bits as nat, self.width as nat),
            FieldContent::Boolean(flag) => le_bytes(if flag { 1nat } else { 0nat }, 1),
            FieldContent::NestedOverlay(_) => Seq::empty(),
            FieldContent::FunctionPointer(addr) => le_bytes(addr as nat, POINTER_WIDTH as nat),
            FieldContent::Blob(data) => data,
        }
    }

    /// `view` after `value` was written to the field of the structure at `base`.
    pub open spec fn stored(self, view: ImageView, base: int, value: FieldContent) -> ImageView {
        view.store(self.location(base), self.encoding(value))
    }

    /// Reads the field of the structure at `base`.
    pub fn read(&self, image: &MemoryImage, base: usize) -> (value: Option<FieldValue>)
        ensures
            value.is_some() == self.content_in(image@, base as int).is_some(),
            value.is_some() ==> value.unwrap()@ == self.content_in(image@, base as int).unwrap(),
    {
        if !self.is_well_formed() {
            return None;
        }
        let addr: usize = match base.checked_add(self.offset) {
            Some(addr) => addr,
            None => {
                return None;
            },
        };
        if !image.covers(addr, self.width) {
            return None;
        }
        let ghost bytes = image@.slice(addr as int, self.width as int);
        match self.interpretation {
            Interpretation::Integer => match image.read_uint(addr, self.width) {
                Some(v) => Some(FieldValue::Integer(v)),
                None => None,
            },
            Interpretation::Float => match image.read_uint(addr, self.width) {
                Some(bits) => Some(FieldValue::Float(bits)),
                None => None,
            },
            Interpretation::Boolean => match image.read_uint(addr, 1) {
                Some(v) => {
                    proof {
                        reveal_with_fuel(le_value, 2);
                        assert(bytes.drop_first().len() == 0);
                    }
                    Some(FieldValue::Boolean(v != 0))
                },
                None => None,
            },
            Interpretation::NestedOverlay => Some(FieldValue::NestedOverlay(addr)),
            Interpretation::FunctionPointer => match image.read_pointer(addr) {
                Some(target) => Some(FieldValue::FunctionPointer(target)),
                None => None,
            },
            Interpretation::Blob => match image.read_bytes(addr, self.width) {
                Some(data) => Some(FieldValue::Blob(data)),
                None => None,
            },
        }
    }

    /// Writes `value` to the field of the structure at `base`. A value that
    /// the field does not admit, or a field that is not all in the image, is
    /// refused: nothing is written and `false` is returned.
    pub fn write(&self, image: &mut MemoryImage, base: usize, value: &FieldValue) -> (written:
        bool)
        ensures
            written == (self.admits(value@) && self.mapped(old(image)@, base as int)),
            written ==> final(image)@ == self.stored(old(image)@, base as int, value@),
            !written ==> final(image)@ == old(image)@,
    {
        if !self.is_well_formed() {
            return false;
        }
        let addr: usize = match base.checked_add(self.offset) {
            Some(addr) => addr,
            None => {
                return false;
            },
        };
        if !image.covers(addr, self.width) {
            return false;
        }
        match value {
            FieldValue::Integer(v) => {
                if self.interpretation == Interpretation::Integer && fits_width(*v, self.width) {
                    image.write_uint(addr, self.width, *v)
                } else {
                    false
                }
            },
            FieldValue::Float(bits) => {
                if self.interpretation == Interpretation::Float && fits_width(*bits, self.width) {
                    image.write_uint(addr, self.width, *bits)
                } else {
                    false
                }
            },
            FieldValue::Boolean(flag) => {
                if self.interpretation == Interpretation::Boolean {
                    let byte: u64 = if *flag {
                        1
                    } else {
                        0
                    };
                    image.write_uint(addr, 1, byte)
                } else {
                    false
                }
            },
            FieldValue::NestedOverlay(_) => false,
            FieldValue::FunctionPointer(target) => {
                if self.interpretation == Interpretation::FunctionPointer {
                    image.write_pointer(addr, *target)
                } else {
                    false
                }
            },
            FieldValue::Blob(data) => {
                if self.interpretation == Interpretation::Blob && data.len() == self.width {
                    image.write_bytes(addr, data.as_slice())
                } else {
                    false
                }
            },
        }
    }
}

/// The bytes that spell an admitted value fill the field exactly.
pub proof fn lemma_encoding_len(field: FieldDescriptor, value: FieldContent)
    requires
        field.admits(value),
    ensures
        field.encoding(value).len() == field.width,
{
    match value {
        FieldContent::Integer(v) => lemma_le_bytes_len(v as nat, field.width as nat),
        FieldContent::Float(bits) => lemma_le_bytes_len(bits as nat, field.width as nat),
        FieldContent::Boolean(flag) => lemma_le_bytes_len(if flag { 1nat } else { 0nat }, 1),
        FieldContent::NestedOverlay(_) => {},
        FieldContent::FunctionPointer(addr) => lemma_le_bytes_len(
            addr as nat,
            POINTER_WIDTH as nat,
        ),
        FieldContent::Blob(_) => {},
    }
}

/// A value written to a field is the value read back from it, bit for bit,
/// whatever the field's offset and interpretation.
pub proof fn lemma_write_then_read(
    field: FieldDescriptor,
    view: ImageView,
    base: int,
    value: FieldContent,
)
    requires
        field.admits(value),
        field.mapped(view, base),
    ensures
        field.content_in(field.stored(view, base, value), base) == Some(value),
{
    let addr = field.location(base);
    let data = field.encoding(value);
    lemma_encoding_len(field, value);
    lemma_store_frames(view, addr, data);
    lemma_changes_only(view, view.store(addr, data), addr, addr + data.len());
    let after = field.stored(view, base, value);
    assert(after.slice(addr, field.width as int) == data);
    assert(after.covers(addr, field.width as int));
    lemma_pow256_values();
    match value {
        FieldContent::Integer(v) => {
            lemma_le_value_of_bytes(v as nat, field.width as nat);
            vstd::arithmetic::div_mod::lemma_small_mod(v as nat, pow256(field.width as nat));
        },
        FieldContent::Float(bits) => {
            lemma_le_value_of_bytes(bits as nat, field.width as nat);
            vstd::arithmetic::div_mod::lemma_small_mod(bits as nat, pow256(field.width as nat));
        },
        FieldContent::Boolean(flag) => {
            reveal_with_fuel(le_bytes, 2);
        },
        FieldContent::NestedOverlay(_) => {},
        FieldContent::FunctionPointer(target) => {
            lemma_le_value_of_bytes(target as nat, POINTER_WIDTH as nat);
            vstd::arithmetic::div_mod::lemma_small_mod(target as nat, pow256(8));
        },
        FieldContent::Blob(_) => {},
    }
}

/// A write to one field leaves every field that shares no byte with it as it
/// was.
pub proof fn lemma_write_keeps_other(
    field: FieldDescriptor,
    other: FieldDescriptor,
    view: ImageView,
    base: int,
    value: FieldContent,
)
    requires
        field.admits(value),
        field.mapped(view, base),
        field.disjoint(other),
    ensures
        other.content_in(field.stored(view, base, value), base) == other.content_in(view, base),
{
    lemma_encoding_len(field, value);
    lemma_store_frames(view, field.location(base), field.encoding(value));
    lemma_changes_only(
        view,
        view.store(field.location(base), field.encoding(value)),
        field.location(base),
        field.location(base) + field.width,
    );
    let after = field.stored(view, base, value);
    assert(after.covers(other.location(base), other.width as int) == view.covers(
        other.location(base),
        other.width as int,
    ));
    if other.mapped(view, base) {
        assert(after.slice(other.location(base), other.width as int) == view.slice(
            other.location(base),
            other.width as int,
        ));
    }
}

/// Whether `fields` is an ordered layout: every field's width suits its
/// interpretation, and each field ends before the next begins.
pub open spec fn fields_in_order(fields: Seq<FieldDescriptor>) -> bool {
    &&& forall|i: int| 0 <= i < fields.len() ==> (#[trigger] fields[i]).well_formed()
    &&& forall|i: int, j: int|
        0 <= i < j < fields.len() ==> (#[trigger] fields[i]).offset + fields[i].width
            <= (#[trigger] fields[j]).offset
}

/// The shape of a foreign structure: its fields, in the order of their
/// offsets. An overlay is a lens, not a container: it holds no byte of the
/// structure it describes.
#[derive(Debug)]
pub struct MemoryOverlay {
    pub name: &'static str,
    pub fields: Vec<FieldDescriptor>,
}

impl MemoryOverlay {
    /// Whether the fields are an ordered layout.
    pub open spec fn well_formed(self) -> bool {
        fields_in_order(self.fields@)
    }

    /// Checks that the fields are an ordered layout.
    pub fn validate(&self) -> (ok: bool)
        ensures
            ok == self.well_formed(),
    {
        let n: usize = self.fields.len();
        let mut k: usize = 0;
        while k < n
            invariant
                k <= n,
                n == self.fields@.len(),
                fields_in_order(self.fields@.take(k as int)),
            decreases n - k,
        {
            let field = self.fields[k];
            if !field.is_well_formed() {
                return false;
            }
            if k > 0 {
                let before = self.fields[k - 1];
                let in_order = match before.offset.checked_add(before.width) {
                    Some(end) => end <= field.offset,
                    None => false,
                };
                if !in_order {
                    return false;
                }
            }
            proof {
                let shorter = self.fields@.take(k as int);
                let longer = self.fields@.take(k + 1);
                assert forall|i: int, j: int| 0 <= i < j < longer.len() implies (
                #[trigger] longer[i]).offset + longer[i].width <= (#[trigger] longer[j]).offset by {
                    if j < k {
                        assert(shorter[i].offset + shorter[i].width <= shorter[j].offset);
                    } else if i < k - 1 {
                        assert(shorter[i].offset + shorter[i].width <= shorter[k - 1].offset);
                    }
                }
                assert forall|i: int| 0 <= i < longer.len() implies (
                #[trigger] longer[i]).well_formed() by {
                    if i < k {
                        assert(shorter[i].well_formed());
                    }
                }
            }
            k = k + 1;
        }
        proof {
            assert(self.fields@.take(n as int) =~= self.fields@);
        }
        true
    }

    /// Reads field `index` of the structure at `base`; `None` where there
    /// is no such field or it cannot be read.
    pub fn read_field(&self, image: &MemoryImage, base: usize, index: usize) -> (value: Option<
        FieldValue,
    >)
        ensures
            value.is_some() == (index < self.fields@.len() && self.fields@[index as int].content_in(
                image@,
                base as int,
            ).is_some()),
            value.is_some() ==> value.unwrap()@ == self.fields@[index as int].content_in(
                image@,
                base as int,
            ).unwrap(),
    {
        if index >= self.fields.len() {
            return None;
        }
        self.fields[index].read(image, base)
    }

    /// Writes `value` to field `index` of the structure at `base`. Where
    /// there is no such field, or it does not admit the value, or it is not
    /// all in the image, nothing is written and `false` is returned.
    pub fn write_field(
        &self,
        image: &mut MemoryImage,
        base: usize,
        index: usize,
        value: &FieldValue,
    ) -> (written: bool)
        ensures
            written == (index < self.fields@.len() && self.fields@[index as int].admits(value@)
                && self.fields@[index as int].mapped(old(image)@, base as int)),
            written ==> final(image)@ == self.fields@[index as int].stored(
                old(image)@,
                base as int,
                value@,
            ),
            !written ==> final(image)@ == old(image)@,
    {
        if index >= self.fields.len() {
            return false;
        }
        self.fields[index].write(image, base, value)
    }
}

/// In an ordered layout a write to one field leaves every other field as it
/// was.
pub proof fn lemma_fields_independent(
    fields: Seq<FieldDescriptor>,
    written: int,
    other: int,
    view: ImageView,
    base: int,
    value: FieldContent,
)
    requires
        fields_in_order(fields),
        0 <= written < fields.len(),
        0 <= other < fields.len(),
        written != other,
        fields[written].admits(value),
        fields[written].mapped(view, base),
    ensures
        fields[other].content_in(fields[written].stored(view, base, value), base)
            == fields[other].content_in(view, base),
{
    if written < other {
        assert(fields[written].offset + fields[written].width <= fields[other].offset);
    } else {
        assert(fields[other].offset + fields[other].width <= fields[written].offset);
    }
    lemma_write_keeps_other(fields[written], fields[other], view, base, value);
}

} // verus!
