//! The PostgreSQL binary format of a one-dimensional array, in which a list is stored in a
//! database column.
//!
//! Layout, every integer being four bytes in network order: the number of dimensions, a flag
//! telling whether elements may be NULL, the element type's oid; then, for an array with
//! dimensions, the number of elements and the lower bound of the index; then each element as
//! its length followed by its bytes, a NULL element being the length -1 with no bytes.
//! The bytes of each element are those of the element type's own binary format.
use crate::byte_order::{
    be_bytes, be_i32, i32_bytes, lemma_be_i32_roundtrip, lemma_be_roundtrip, read_i32_at, u32_bytes,
};
use vstd::prelude::*;

verus! {

/// Why bytes are not an array this format can read.
#[derive(Copy, Clone, PartialEq, Eq, Structural, Debug)]
pub enum PgArrayError {
    /// The column held NULL, where an array was expected.
    UnexpectedNull,
    /// The bytes end before a header word or an element length.
    Truncated,
    /// The array has more than one dimension.
    MultiDimensional,
}

impl PgArrayError {
    /// The error's text.
    pub fn message(&self) -> (text: &'static str)
        ensures
            *self == PgArrayError::UnexpectedNull ==> text@ == "Unexpected null for non-null column"@,
            *self == PgArrayError::Truncated ==> text@ == "failed to fill whole buffer"@,
            *self == PgArrayError::MultiDimensional ==> text@
                == "multi-dimensional arrays are not supported"@,
    {
        match self {
            PgArrayError::UnexpectedNull => "Unexpected null for non-null column",
            PgArrayError::Truncated => "failed to fill whole buffer",
            PgArrayError::MultiDimensional => "multi-dimensional arrays are not supported",
        }
    }
}

/// Elements as bytes: `None` for NULL.
pub open spec fn elements_view(elements: Seq<Option<Vec<u8>>>) -> Seq<Option<Seq<u8>>> {
    elements.map_values(
        |element: Option<Vec<u8>>|
            match element {
                Some(bytes) => Some(bytes@),
                None => None,
            },
    )
}

/// Outcome of reading: `None` where an element's length is negative (and not an allowed NULL)
/// or runs past the end of the bytes, inputs on which no array can be read.
pub type Decoded = Option<Result<Seq<Option<Seq<u8>>>, PgArrayError>>;

/// `decoded` with `prefix` put before its elements; errors pass unchanged.
pub open spec fn after_prefix(prefix: Seq<Option<Seq<u8>>>, decoded: Decoded) -> Decoded {
    match decoded {
        Some(Ok(rest)) => Some(Ok(prefix + rest)),
        other => other,
    }
}

/// Reads `count` elements from `bytes`; `nullable` allows the length -1 for NULL.
#[verifier::opaque]
pub open spec fn decode_elements(bytes: Seq<u8>, count: int, nullable: bool) -> Decoded
    decreases count,
{
    if count <= 0 {
        Some(Ok(Seq::empty()))
    } else if bytes.len() < 4 {
        Some(Err(PgArrayError::Truncated))
    } else {
        let length = be_i32(bytes.take(4));
        let rest = bytes.skip(4);
        if nullable && length == -1 {
            after_prefix(seq![None], decode_elements(rest, count - 1, nullable))
        } else if length < 0 || length > rest.len() {
            None
        } else {
            after_prefix(
                seq![Some(rest.take(length as int))],
                decode_elements(rest.skip(length as int), count - 1, nullable),
            )
        }
    }
}

/// Reads an array from a column's bytes, `None` standing for a NULL column.
pub open spec fn decode_spec(column: Option<Seq<u8>>) -> Decoded {
    match column {
        None => Some(Err(PgArrayError::UnexpectedNull)),
        Some(bytes) => if bytes.len() < 12 {
            Some(Err(PgArrayError::Truncated))
        } else {
            let dimensions = be_i32(bytes.subrange(0, 4));
            let nullable = be_i32(bytes.subrange(4, 8)) != 0;
            if dimensions == 0 {
                Some(Ok(Seq::empty()))
            } else if bytes.len() < 20 {
                Some(Err(PgArrayError::Truncated))
            } else if dimensions != 1 {
                Some(Err(PgArrayError::MultiDimensional))
            } else {
                decode_elements(bytes.skip(20), be_i32(bytes.subrange(12, 16)) as int, nullable)
            }
        },
    }
}

/// The column's bytes, if it is not NULL.
pub open spec fn column_view(column: Option<&[u8]>) -> Option<Seq<u8>> {
    match column {
        Some(bytes) => Some(bytes@),
        None => None,
    }
}

/// The outcome of a read by the exec functions.
pub open spec fn result_view(result: Result<Vec<Option<Vec<u8>>>, PgArrayError>) -> Result<
    Seq<Option<Seq<u8>>>,
    PgArrayError,
> {
    match result {
        Ok(elements) => Ok(elements_view(elements@)),
        Err(error) => Err(error),
    }
}

/// The bytes of one element: its length, then its bytes; -1 alone for NULL.
pub open spec fn encode_element(element: Option<Seq<u8>>) -> Seq<u8> {
    match element {
        Some(bytes) => be_bytes((bytes.len() as i32) as u32) + bytes,
        None => be_bytes((-1i32) as u32),
    }
}

/// The bytes of the elements, one after the other.
#[verifier::opaque]
pub open spec fn encode_elements(elements: Seq<Option<Seq<u8>>>) -> Seq<u8>
    decreases elements.len(),
{
    if elements.len() == 0 {
        Seq::empty()
    } else {
        encode_element(elements[0]) + encode_elements(elements.drop_first())
    }
}

/// The bytes of a one-dimensional array of `elements` of the type `element_oid`: one dimension,
/// the flag 0, the oid, the number of elements, the lower bound 1, then the elements.
pub open spec fn encode_spec(element_oid: u32, elements: Seq<Option<Seq<u8>>>) -> Seq<u8> {
    be_bytes(1u32) + be_bytes(0u32) + be_bytes(element_oid) + be_bytes(
        (elements.len() as i32) as u32,
    ) + be_bytes(1u32) + encode_elements(elements)
}

/// Copies `length` bytes of `bytes` from `at`.
fn copy_range(bytes: &[u8], at: usize, length: usize) -> (copy: Vec<u8>)
    requires
        at + length <= bytes.len(),
    ensures
        copy@ == bytes@.subrange(at as int, at + length),
{
    let mut copy: Vec<u8> = Vec::new();
    let mut k: usize = 0;
    while k < length
        invariant
            at + length <= bytes.len(),
            k <= length,
            copy@ == bytes@.subrange(at as int, at + k),
        decreases length - k,
    {
        copy.push(bytes[at + k]);
        k = k + 1;
        assert(copy@ =~= bytes@.subrange(at as int, at + k));
    }
    copy
}

/// Reads the elements from position 20 on; the outcome is `None` exactly where
/// [`decode_elements`] is.
fn decode_body(bytes: &[u8], count: i32, nullable: bool) -> (decoded: Option<
    Result<Vec<Option<Vec<u8>>>, PgArrayError>,
>)
    requires
        20 <= bytes@.len(),
    ensures
        decoded is None <==> decode_elements(bytes@.skip(20), count as int, nullable) is None,
        decoded matches Some(result) ==> decode_elements(bytes@.skip(20), count as int, nullable)
            == Some(result_view(result)),
{
    reveal(decode_elements);
    let ghost whole = decode_elements(bytes@.skip(20), count as int, nullable);
    let mut elements: Vec<Option<Vec<u8>>> = Vec::new();
    let mut at: usize = 20;
    let mut read: i32 = 0;
    let mut done = count <= 0;
    while !done
        invariant
            whole == decode_elements(bytes@.skip(20), count as int, nullable),
            20 <= at <= bytes@.len(),
            0 <= read,
            done ==> read >= count,
            !done ==> read < count,
            whole == after_prefix(
                elements_view(elements@),
                decode_elements(bytes@.skip(at as int), count - read, nullable),
            ),
        decreases count - read,
    {
        proof {
            reveal(decode_elements);
        }
        let ghost rest_before = bytes@.skip(at as int);
        let ghost prefix_before = elements_view(elements@);
        if bytes.len() - at < 4 {
            assert(decode_elements(rest_before, count - read, nullable) == Some(
                Err::<Seq<Option<Seq<u8>>>, PgArrayError>(PgArrayError::Truncated),
            ));
            return Some(Err(PgArrayError::Truncated));
        }
        let length = read_i32_at(bytes, at);
        assert(bytes@.subrange(at as int, at + 4) =~= rest_before.take(4));
        assert(bytes@.skip(at + 4) =~= rest_before.skip(4));
        if nullable && length == -1 {
            elements.push(None);
            at = at + 4;
            assert(elements_view(elements@) =~= prefix_before + seq![None]);
        } else {
            if length < 0 {
                assert(decode_elements(rest_before, count - read, nullable) is None);
                return None;
            }
            let size = length as usize;
            if size > bytes.len() - (at + 4) {
                assert(decode_elements(rest_before, count - read, nullable) is None);
                return None;
            }
            let element = copy_range(bytes, at + 4, size);
            assert(element@ =~= rest_before.skip(4).take(length as int));
            assert(bytes@.skip(at + 4 + size) =~= rest_before.skip(4).skip(length as int));
            elements.push(Some(element));
            at = at + 4 + size;
            assert(elements_view(elements@) =~= prefix_before + seq![Some(element@)]);
        }
        read = read + 1;
        done = read >= count;
        proof {
            let tail = decode_elements(bytes@.skip(at as int), count - read, nullable);
            match tail {
                Some(Ok(rest)) => {
                    assert(prefix_before + (seq![elements_view(elements@).last()] + rest)
                        =~= elements_view(elements@) + rest);
                },
                _ => {},
            }
        }
    }
    proof {
        assert(decode_elements(bytes@.skip(at as int), count - read, nullable) == Some(
            Ok::<Seq<Option<Seq<u8>>>, PgArrayError>(Seq::empty()),
        ));
        assert(elements_view(elements@) + Seq::<Option<Seq<u8>>>::empty() =~= elements_view(
            elements@,
        ));
    }
    Some(Ok(elements))
}


/// Reads an array from a column's bytes (`None` for a NULL column); the outcome is `None`
/// exactly on the inputs where [`decode_spec`] is.
fn decode_or_overrun(column: Option<&[u8]>) -> (decoded: Option<
    Result<Vec<Option<Vec<u8>>>, PgArrayError>,
>)
    ensures
        decoded is None <==> decode_spec(column_view(column)) is None,
        decoded matches Some(result) ==> decode_spec(column_view(column)) == Some(
            result_view(result),
        ),
{
    let bytes = match column {
        None => {
            return Some(Err(PgArrayError::UnexpectedNull));
        },
        Some(bytes) => bytes,
    };
    if bytes.len() < 12 {
        return Some(Err(PgArrayError::Truncated));
    }
    let dimensions = read_i32_at(bytes, 0);
    let nullable = read_i32_at(bytes, 4) != 0;
    if dimensions == 0 {
        let none: Vec<Option<Vec<u8>>> = Vec::new();
        assert(elements_view(none@) =~= Seq::empty());
        return Some(Ok(none));
    }
    if bytes.len() < 20 {
        return Some(Err(PgArrayError::Truncated));
    }
    if dimensions != 1 {
        return Some(Err(PgArrayError::MultiDimensional));
    }
    let count = read_i32_at(bytes, 12);
    decode_body(bytes, count, nullable)
}

/// Whether an array can be read from the column at all: false exactly where an element's length
/// is negative (other than an allowed NULL) or runs past the end of the bytes.
pub fn pg_array_readable(column: Option<&[u8]>) -> (readable: bool)
    ensures
        readable == decode_spec(column_view(column)) is Some,
{
    decode_or_overrun(column).is_some()
}

/// Reads the elements of an array from a column's bytes (`None` for a NULL column): each element
/// as its bytes, `None` for NULL. Inputs where no array can be read are left out by `requires`;
/// [`pg_array_readable`] tells them apart.
pub fn decode_pg_array(column: Option<&[u8]>) -> (result: Result<
    Vec<Option<Vec<u8>>>,
    PgArrayError,
>)
    requires
        decode_spec(column_view(column)) is Some,
    ensures
        decode_spec(column_view(column)) == Some(result_view(result)),
{
    match decode_or_overrun(column) {
        Some(result) => result,
        None => {
            proof {
                assert(false);
            }
            Err(PgArrayError::Truncated)
        },
    }
}

/// Appends four bytes.
fn push_word(out: &mut Vec<u8>, word: [u8; 4])
    ensures
        final(out)@ == old(out)@ + word@,
{
    out.push(word[0]);
    out.push(word[1]);
    out.push(word[2]);
    out.push(word[3]);
    assert(out@ =~= old(out)@ + word@);
}

/// Appends `bytes`.
fn push_bytes(out: &mut Vec<u8>, bytes: &Vec<u8>)
    ensures
        final(out)@ == old(out)@ + bytes@,
{
    let ghost start = out@;
    let mut k: usize = 0;
    while k < bytes.len()
        invariant
            k <= bytes@.len(),
            out@ == start + bytes@.take(k as int),
        decreases bytes@.len() - k,
    {
        out.push(bytes[k]);
        k = k + 1;
        assert(out@ =~= start + bytes@.take(k as int));
    }
    assert(bytes@.take(k as int) =~= bytes@);
}

/// Encoding one more element appends its bytes.
pub proof fn lemma_encode_elements_push(elements: Seq<Option<Seq<u8>>>, last: Option<Seq<u8>>)
    ensures
        encode_elements(elements.push(last)) == encode_elements(elements) + encode_element(last),
    decreases elements.len(),
{
    reveal(encode_elements);
    if elements.len() == 0 {
        assert(elements.push(last).drop_first() =~= Seq::<Option<Seq<u8>>>::empty());
        assert(elements.push(last)[0] == last);
        assert(encode_elements(Seq::<Option<Seq<u8>>>::empty()) == Seq::<u8>::empty());
        assert(encode_elements(elements) == Seq::<u8>::empty());
        assert(encode_elements(elements.push(last)) =~= encode_element(last));
    } else {
        lemma_encode_elements_push(elements.drop_first(), last);
        assert(elements.push(last).drop_first() =~= elements.drop_first().push(last));
        assert(encode_elements(elements.push(last)) =~= encode_elements(elements) + encode_element(
            last,
        ));
    }
}

/// Writes a one-dimensional array of `elements` (each as its bytes, `None` for NULL) of the
/// type `element_oid`. The number of elements and each length are written as `i32`, truncated
/// like the `as` cast.
pub fn encode_pg_array(element_oid: u32, elements: &Vec<Option<Vec<u8>>>) -> (bytes: Vec<u8>)
    ensures
        bytes@ == encode_spec(element_oid, elements_view(elements@)),
{
    let ghost view = elements_view(elements@);
    let mut out: Vec<u8> = Vec::new();
    push_word(&mut out, i32_bytes(1));
    push_word(&mut out, i32_bytes(0));
    push_word(&mut out, u32_bytes(element_oid));
    push_word(&mut out, i32_bytes(elements.len() as i32));
    push_word(&mut out, i32_bytes(1));
    let ghost header = out@;
    proof {
        reveal(encode_elements);
        assert(view.take(0) =~= Seq::<Option<Seq<u8>>>::empty());
    }
    assert(header =~= be_bytes(1u32) + be_bytes(0u32) + be_bytes(element_oid) + be_bytes(
        (view.len() as i32) as u32,
    ) + be_bytes(1u32));
    let mut i: usize = 0;
    while i < elements.len()
        invariant
            view == elements_view(elements@),
            i <= elements@.len(),
            out@ == header + encode_elements(view.take(i as int)),
        decreases elements@.len() - i,
    {
        let ghost before = out@;
        match &elements[i] {
            Some(element) => {
                push_word(&mut out, i32_bytes(element.len() as i32));
                push_bytes(&mut out, element);
            },
            None => {
                push_word(&mut out, i32_bytes(-1));
            },
        }
        proof {
            lemma_encode_elements_push(view.take(i as int), view[i as int]);
            assert(view.take(i + 1) =~= view.take(i as int).push(view[i as int]));
            assert(out@ =~= before + encode_element(view[i as int]));
        }
        i = i + 1;
    }
    assert(view.take(i as int) =~= view);
    out
}

/// Every element is present (not NULL) and its length fits an `i32`.
pub open spec fn all_present_and_short(elements: Seq<Option<Seq<u8>>>) -> bool {
    forall|i: int|
        0 <= i < elements.len() ==> (#[trigger] elements[i] matches Some(bytes) && bytes.len()
            <= i32::MAX)
}

/// Reading one present element written before `rest` gives it, then what `rest` reads as.
pub proof fn lemma_decode_one_present(bytes: Seq<u8>, rest: Seq<u8>, count: int, nullable: bool)
    requires
        bytes.len() <= i32::MAX,
        count > 0,
    ensures
        decode_elements(encode_element(Some(bytes)) + rest, count, nullable) == after_prefix(
            seq![Some(bytes)],
            decode_elements(rest, count - 1, nullable),
        ),
{
    reveal(decode_elements);
    let word = be_bytes((bytes.len() as i32) as u32);
    let whole = encode_element(Some(bytes)) + rest;
    lemma_be_i32_roundtrip(bytes.len() as i32);
    assert(whole.take(4) =~= word);
    assert(be_i32(whole.take(4)) == bytes.len());
    assert(whole.skip(4) =~= bytes + rest);
    assert(whole.skip(4).take(bytes.len() as int) =~= bytes);
    assert(whole.skip(4).skip(bytes.len() as int) =~= rest);
}

/// Dropping the first element keeps every element present and short.
proof fn lemma_rest_present_and_short(elements: Seq<Option<Seq<u8>>>)
    requires
        elements.len() > 0,
        all_present_and_short(elements),
    ensures
        all_present_and_short(elements.drop_first()),
        elements[0] matches Some(bytes) && bytes.len() <= i32::MAX,
{
    let rest = elements.drop_first();
    assert(elements[0] matches Some(b) && b.len() <= i32::MAX);
    assert forall|i: int| 0 <= i < rest.len() implies (#[trigger] rest[i] matches Some(b)
        && b.len() <= i32::MAX) by {
        assert(rest[i] == elements[i + 1]);
    }
}

/// Writing elements one after another starts with the first one.
proof fn lemma_encode_first(elements: Seq<Option<Seq<u8>>>, trailing: Seq<u8>)
    requires
        elements.len() > 0,
    ensures
        encode_elements(elements) + trailing == encode_element(elements[0]) + (encode_elements(
            elements.drop_first(),
        ) + trailing),
{
    reveal(encode_elements);
    assert(encode_elements(elements) + trailing =~= encode_element(elements[0]) + (
    encode_elements(elements.drop_first()) + trailing));
}

/// Reading elements written one after another gives them back, whatever follows them.
pub proof fn lemma_decode_encoded_elements(
    elements: Seq<Option<Seq<u8>>>,
    trailing: Seq<u8>,
    nullable: bool,
)
    requires
        all_present_and_short(elements),
    ensures
        decode_elements(encode_elements(elements) + trailing, elements.len() as int, nullable)
            == Some(Ok::<Seq<Option<Seq<u8>>>, PgArrayError>(elements)),
    decreases elements.len(),
{
    if elements.len() == 0 {
        reveal(encode_elements);
        reveal(decode_elements);
        assert(elements =~= Seq::<Option<Seq<u8>>>::empty());
    } else {
        let rest = elements.drop_first();
        lemma_rest_present_and_short(elements);
        let bytes = elements[0]->0;
        lemma_decode_encoded_elements(rest, trailing, nullable);
        lemma_encode_first(elements, trailing);
        lemma_decode_one_present(
            bytes,
            encode_elements(rest) + trailing,
            elements.len() as int,
            nullable,
        );
        assert(seq![Some(bytes)] + rest =~= elements);
    }
}

/// The header of an encoded array: one dimension, no NULL flag, and the number of elements.
proof fn lemma_encoded_header(element_oid: u32, elements: Seq<Option<Seq<u8>>>)
    requires
        elements.len() <= i32::MAX,
    ensures
        ({
            let bytes = encode_spec(element_oid, elements);
            &&& bytes.len() >= 20
            &&& be_i32(bytes.subrange(0, 4)) == 1
            &&& be_i32(bytes.subrange(4, 8)) == 0
            &&& be_i32(bytes.subrange(12, 16)) == elements.len()
            &&& bytes.skip(20) == encode_elements(elements) + Seq::<u8>::empty()
        }),
{
    let bytes = encode_spec(element_oid, elements);
    lemma_be_i32_roundtrip(1i32);
    lemma_be_i32_roundtrip(0i32);
    lemma_be_i32_roundtrip(elements.len() as i32);
    assert(bytes.subrange(0, 4) =~= be_bytes(1i32 as u32));
    assert(bytes.subrange(4, 8) =~= be_bytes(0i32 as u32));
    assert(bytes.subrange(12, 16) =~= be_bytes((elements.len() as i32) as u32));
    assert(bytes.skip(20) =~= encode_elements(elements) + Seq::<u8>::empty());
}

/// Reading back the bytes written for an array gives its elements, when no element is NULL and
/// the number of elements and every length fit an `i32`.
pub proof fn lemma_pg_array_roundtrip(element_oid: u32, elements: Seq<Option<Seq<u8>>>)
    requires
        elements.len() <= i32::MAX,
        all_present_and_short(elements),
    ensures
        decode_spec(Some(encode_spec(element_oid, elements))) == Some(
            Ok::<Seq<Option<Seq<u8>>>, PgArrayError>(elements),
        ),
{
    lemma_encoded_header(element_oid, elements);
    lemma_decode_encoded_elements(elements, Seq::empty(), false);
}

} // verus!
