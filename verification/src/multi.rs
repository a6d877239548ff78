//! Test cases made of several byte fields.

use vstd::prelude::*;
use vstd::string::StringExecFns;
use crate::outside::{is_hyphenated_uuid, uuid_text, UUID_TEXT_LEN};
use crate::text::{decimal, push_decimal};

verus! {

/// One field of a test case: a sequence of bytes.
#[derive(Debug, PartialEq, Eq)]
pub struct BytesInput {
    bytes: Vec<u8>,
}

impl View for BytesInput {
    type V = Seq<u8>;

    closed spec fn view(&self) -> Seq<u8> {
        self.bytes@
    }
}

impl Clone for BytesInput {
    fn clone(&self) -> (copy: BytesInput)
        ensures
            copy@ == self@,
    {
        let bytes = self.bytes.clone();
        BytesInput { bytes }
    }
}

impl BytesInput {
    /// A field that holds `bytes`.
    pub fn new(bytes: Vec<u8>) -> (input: BytesInput)
        ensures
            input@ == bytes@,
    {
        BytesInput { bytes }
    }

    /// The bytes of the field.
    pub fn bytes(&self) -> (b: &[u8])
        ensures
            b@ == self@,
    {
        self.bytes.as_slice()
    }

    /// The bytes of the field, for the caller to change.
    pub fn bytes_mut(&mut self) -> (b: &mut Vec<u8>)
        ensures
            b@ == old(self)@,
            final(self)@ == final(b)@,
    {
        &mut self.bytes
    }

    /// A copy of the bytes of the field.
    pub fn target_bytes(&self) -> (b: Vec<u8>)
        ensures
            b@ == self@,
    {
        let b = self.bytes.clone();
        b
    }

    /// Number of bytes of the field.
    pub fn len(&self) -> (n: usize)
        ensures
            n == self@.len(),
    {
        self.bytes.len()
    }

    /// Whether the field holds no byte.
    pub fn is_empty(&self) -> (r: bool)
        ensures
            r == (self@.len() == 0),
    {
        self.bytes.len() == 0
    }
}

/// The contents of the fields of a test case, in order.
pub open spec fn field_bytes(fields: Seq<BytesInput>) -> Seq<Seq<u8>> {
    Seq::new(fields.len(), |i: int| fields[i]@)
}

/// Number of bytes of all the fields together.
pub open spec fn total_len(fields: Seq<BytesInput>) -> nat
    decreases fields.len(),
{
    if fields.len() == 0 {
        0
    } else {
        total_len(fields.drop_last()) + fields.last()@.len()
    }
}

/// A value that can hand out owned copies of its byte fields.
pub trait AsMultiBytes {
    /// The byte fields of the value, in order.
    spec fn owned_parts(&self) -> Seq<Seq<u8>>;

    /// Copies of the byte fields, in order.
    fn as_multi_ownd_bytes(&self) -> (parts: Vec<Vec<u8>>)
        ensures
            parts@.len() == self.owned_parts().len(),
            forall|i: int| 0 <= i < parts@.len() ==> (#[trigger] parts@[i])@ == self.owned_parts()[i],
    ;
}

/// A value that can lend its byte fields.
pub trait AsMultiBytesVec {
    /// The byte fields of the value, in order.
    spec fn byte_parts(&self) -> Seq<Seq<u8>>;

    /// The byte fields, in order.
    fn as_multi_bytes(&self) -> (parts: Vec<&[u8]>)
        ensures
            parts@.len() == self.byte_parts().len(),
            forall|i: int| 0 <= i < parts@.len() ==> (#[trigger] parts@[i])@ == self.byte_parts()[i],
    ;

    /// The byte fields, in order, for the caller to change.
    fn as_multi_bytes_mut(&mut self) -> (parts: Vec<&mut Vec<u8>>)
        ensures
            parts@.len() == old(self).byte_parts().len(),
            final(self).byte_parts().len() == old(self).byte_parts().len(),
            forall|i: int|
                0 <= i < parts@.len() ==> parts@[i]@ == #[trigger] old(self).byte_parts()[i],
            forall|i: int|
                0 <= i < parts@.len() ==> #[trigger] final(self).byte_parts()[i] == final(
                    parts@[i]
                )@,
    ;
}

/// A value that is made of inputs of the type `I`.
pub trait AsMultiInput<I> {
    /// The inputs that the value is made of, in order.
    spec fn input_parts(&self) -> Seq<I>;

    /// The inputs, for the caller to change.
    fn as_multi_input_mut(&mut self) -> (parts: &mut Vec<I>)
        ensures
            parts@ == old(self).input_parts(),
            final(self).input_parts() == final(parts)@,
    ;

    /// The inputs, in order.
    fn as_multi_input(&self) -> (parts: &Vec<I>)
        ensures
            parts@ == self.input_parts(),
    ;
}

/// A test case made of several byte fields.
#[derive(Debug, PartialEq, Eq)]
pub struct MultiInput {
    pub fields: Vec<BytesInput>,
}

impl View for MultiInput {
    type V = Seq<Seq<u8>>;

    open spec fn view(&self) -> Seq<Seq<u8>> {
        field_bytes(self.fields@)
    }
}

impl Clone for MultiInput {
    fn clone(&self) -> (copy: MultiInput)
        ensures
            copy@ == self@,
    {
        let mut fields: Vec<BytesInput> = Vec::new();
        let mut i: usize = 0;
        while i < self.fields.len()
            invariant
                0 <= i <= self.fields@.len(),
                fields@.len() == i,
                forall|j: int| 0 <= j < i ==> (#[trigger] fields@[j])@ == self.fields@[j]@,
            decreases self.fields@.len() - i,
        {
            fields.push(self.fields[i].clone());
            i += 1;
        }
        let copy = MultiInput { fields };
        copy
    }
}

impl MultiInput {
    /// The test case with the fields `f`.
    pub fn new(f: Vec<BytesInput>) -> (input: MultiInput)
        ensures
            input.fields == f,
    {
        MultiInput { fields: f }
    }

    /// Whether `name` is a file name for the test case with the index `idx`:
    /// the index in decimal, an identifier in its hyphenated form, and the
    /// ending `.test`.
    pub open spec fn is_name_for(name: Seq<char>, idx: usize) -> bool {
        let digits = decimal(idx as nat);
        &&& name.len() == digits.len() + UUID_TEXT_LEN + 5
        &&& name.subrange(0, digits.len() as int) == digits
        &&& is_hyphenated_uuid(
            name.subrange(digits.len() as int, digits.len() + UUID_TEXT_LEN as int),
        )
        &&& name.subrange(name.len() - 5, name.len() as int) == ".test"@
    }

    /// A fresh file name for this test case; no two calls give the same name
    /// but by chance.
    pub fn generate_name(&self, idx: usize) -> (name: String)
        ensures
            Self::is_name_for(name@, idx),
    {
        let mut name = String::new();
        push_decimal(&mut name, idx as u64);
        let id = uuid::Uuid::new_v4();
        let id_text = uuid_text(&id);
        name.append(id_text.as_str());
        name.append(".test");
        proof {
            reveal_strlit(".test");
            let digits = decimal(idx as nat);
            assert(name@ =~= digits + id_text@ + ".test"@);
            assert(name@.subrange(0, digits.len() as int) =~= digits);
            assert(name@.subrange(digits.len() as int, digits.len() + UUID_TEXT_LEN as int)
                =~= id_text@);
            assert(name@.subrange(name@.len() - 5, name@.len() as int) =~= ".test"@);
        }
        name
    }

    /// The bytes of the first field.
    pub fn bytes(&self) -> (b: &[u8])
        requires
            self.fields@.len() > 0,
        ensures
            b@ == self.fields@[0]@,
    {
        self.fields[0].bytes()
    }

    /// The bytes of the first field, for the caller to change.
    pub fn bytes_mut(&mut self) -> (b: &mut Vec<u8>)
        requires
            old(self).fields@.len() > 0,
        ensures
            b@ == old(self).fields@[0]@,
            final(self).fields@.len() == old(self).fields@.len(),
            final(self).fields@[0]@ == final(b)@,
            forall|i: int|
                0 < i < old(self).fields@.len() ==> final(self).fields@[i] == old(self).fields@[i],
    {
        self.fields[0].bytes_mut()
    }

    /// Number of bytes of all the fields together.
    pub fn len(&self) -> (n: usize)
        requires
            total_len(self.fields@) <= usize::MAX,
        ensures
            n == total_len(self.fields@),
    {
        let mut n: usize = 0;
        let mut i: usize = 0;
        while i < self.fields.len()
            invariant
                0 <= i <= self.fields@.len(),
                n == total_len(self.fields@.take(i as int)),
                total_len(self.fields@) <= usize::MAX,
            decreases self.fields@.len() - i,
        {
            proof {
                assert(self.fields@.take(i as int + 1).drop_last() =~= self.fields@.take(i as int));
                lemma_total_len_grows(self.fields@, i as int + 1);
            }
            n = n + self.fields[i].len();
            i += 1;
        }
        proof {
            assert(self.fields@.take(i as int) =~= self.fields@);
        }
        n
    }

    /// Whether no field holds a byte.
    pub fn is_empty(&self) -> (r: bool)
        ensures
            r == (forall|i: int| 0 <= i < self.fields@.len() ==> (#[trigger] self.fields@[i])@.len() == 0),
    {
        let mut i: usize = 0;
        while i < self.fields.len()
            invariant
                0 <= i <= self.fields@.len(),
                forall|j: int| 0 <= j < i ==> (#[trigger] self.fields@[j])@.len() == 0,
            decreases self.fields@.len() - i,
        {
            if !self.fields[i].is_empty() {
                return false;
            }
            i += 1;
        }
        true
    }
}

/// The bytes of the first `n` fields are at most as many as those of all.
proof fn lemma_total_len_grows(fields: Seq<BytesInput>, n: int)
    requires
        0 <= n <= fields.len(),
    ensures
        total_len(fields.take(n)) <= total_len(fields),
    decreases fields.len() - n,
{
    if n < fields.len() {
        assert(fields.take(n + 1).drop_last() =~= fields.take(n));
        lemma_total_len_grows(fields, n + 1);
    } else {
        assert(fields.take(n) =~= fields);
    }
}

impl AsMultiInput<BytesInput> for MultiInput {
    open spec fn input_parts(&self) -> Seq<BytesInput> {
        self.fields@
    }

    fn as_multi_input_mut(&mut self) -> (parts: &mut Vec<BytesInput>) {
        &mut self.fields
    }

    fn as_multi_input(&self) -> (parts: &Vec<BytesInput>) {
        &self.fields
    }
}

impl AsMultiBytes for MultiInput {
    open spec fn owned_parts(&self) -> Seq<Seq<u8>> {
        self@
    }

    fn as_multi_ownd_bytes(&self) -> (parts: Vec<Vec<u8>>) {
        let mut parts: Vec<Vec<u8>> = Vec::new();
        let mut i: usize = 0;
        while i < self.fields.len()
            invariant
                0 <= i <= self.fields@.len(),
                parts@.len() == i,
                forall|j: int| 0 <= j < i ==> (#[trigger] parts@[j])@ == self.fields@[j]@,
            decreases self.fields@.len() - i,
        {
            parts.push(self.fields[i].target_bytes());
            i += 1;
        }
        parts
    }
}

impl AsMultiBytesVec for MultiInput {
    open spec fn byte_parts(&self) -> Seq<Seq<u8>> {
        self@
    }

    fn as_multi_bytes(&self) -> (parts: Vec<&[u8]>) {
        let mut parts: Vec<&[u8]> = Vec::new();
        let mut i: usize = 0;
        while i < self.fields.len()
            invariant
                0 <= i <= self.fields@.len(),
                parts@.len() == i,
                forall|j: int| 0 <= j < i ==> (#[trigger] parts@[j])@ == self.fields@[j]@,
            decreases self.fields@.len() - i,
        {
            parts.push(self.fields[i].bytes());
            i += 1;
        }
        parts
    }

    fn as_multi_bytes_mut(&mut self) -> (parts: Vec<&mut Vec<u8>>) {
        lend_all(&mut self.fields)
    }
}

/// Lends the bytes of every field of `fields`, in order.
fn lend_all(fields: &mut Vec<BytesInput>) -> (parts: Vec<&mut Vec<u8>>)
    ensures
        parts@.len() == old(fields)@.len(),
        final(fields)@.len() == old(fields)@.len(),
        forall|i: int| 0 <= i < parts@.len() ==> parts@[i]@ == (#[trigger] old(fields)@[i])@,
        forall|i: int|
            0 <= i < parts@.len() ==> (#[trigger] final(fields)@[i])@ == final(parts@[i])@,
{
    let mut parts: Vec<&mut Vec<u8>> = Vec::new();
    let mut rest: &mut [BytesInput] = fields.as_mut_slice();
    let ghost fin: Seq<BytesInput> = final(rest)@;
    while rest.len() > 0
        invariant
            parts@.len() + rest@.len() == old(fields)@.len(),
            fin.len() == parts@.len() + final(rest)@.len(),
            forall|i: int| 0 <= i < parts@.len() ==> parts@[i]@ == (#[trigger] old(fields)@[i])@,
            forall|k: int|
                0 <= k < rest@.len() ==> #[trigger] rest@[k] == old(fields)@[parts@.len() + k],
            forall|i: int| 0 <= i < parts@.len() ==> (#[trigger] fin[i])@ == final(parts@[i])@,
            fin.subrange(parts@.len() as int, fin.len() as int) == final(rest)@,
        decreases rest@.len(),
    {
        let ghost rest_final = final(rest)@;
        let ghost done = parts@.len();
        let (head, tail) = rest.split_at_mut(1);
        parts.push(head[0].bytes_mut());
        rest = tail;
        proof {
            assert(fin[done as int] == rest_final[0]);
            let tail_final = final(rest)@;
            assert forall|k: int| 0 <= k < tail_final.len() implies fin[done + 1 + k]
                == tail_final[k] by {
                assert(fin.subrange(done as int, fin.len() as int)[1 + k] == rest_final[1 + k]);
            }
        }
    }
    parts
}

} // verus!
