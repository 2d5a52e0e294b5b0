use voluntary_servitude::pg_array::{decode_pg_array, encode_pg_array, pg_array_readable, PgArrayError};

fn word(n: i32) -> Vec<u8> {
    n.to_be_bytes().to_vec()
}

fn header(dimensions: i32, has_null: i32, oid: u32) -> Vec<u8> {
    let mut out = word(dimensions);
    out.extend(word(has_null));
    out.extend(oid.to_be_bytes());
    out
}

#[test]
fn encode_writes_header_and_elements() {
    let elements = vec![Some(vec![1u8, 2]), Some(vec![]), None];
    let bytes = encode_pg_array(23, &elements);
    let mut expected = header(1, 0, 23);
    expected.extend(word(3));
    expected.extend(word(1));
    expected.extend(word(2));
    expected.extend([1u8, 2]);
    expected.extend(word(0));
    expected.extend(word(-1));
    assert_eq!(bytes, expected);
}

#[test]
fn encode_empty_array() {
    let bytes = encode_pg_array(25, &vec![]);
    assert_eq!(bytes, vec![0, 0, 0, 1, 0, 0, 0, 0, 0, 0, 0, 25, 0, 0, 0, 0, 0, 0, 0, 1]);
}

#[test]
fn decode_reads_back_what_encode_wrote() {
    let elements = vec![Some(vec![7u8]), Some(vec![1, 2, 3]), Some(vec![])];
    let bytes = encode_pg_array(21, &elements);
    assert!(pg_array_readable(Some(&bytes)));
    assert_eq!(decode_pg_array(Some(&bytes)), Ok(elements));
}

#[test]
fn decode_null_elements_when_flagged() {
    let mut bytes = header(1, 1, 23);
    bytes.extend(word(2));
    bytes.extend(word(1));
    bytes.extend(word(-1));
    bytes.extend(word(1));
    bytes.push(9);
    assert_eq!(decode_pg_array(Some(&bytes)), Ok(vec![None, Some(vec![9])]));
}

#[test]
fn null_element_written_without_flag_cannot_be_read() {
    let bytes = encode_pg_array(23, &vec![None]);
    assert!(!pg_array_readable(Some(&bytes)));
}

#[test]
fn decode_errors() {
    assert_eq!(decode_pg_array(None), Err(PgArrayError::UnexpectedNull));
    assert_eq!(decode_pg_array(Some(&[0, 0, 0, 1])), Err(PgArrayError::Truncated));
    let no_dimensions = header(0, 0, 23);
    assert_eq!(decode_pg_array(Some(&no_dimensions)), Ok(vec![]));
    let short = header(2, 0, 23);
    assert_eq!(decode_pg_array(Some(&short)), Err(PgArrayError::Truncated));
    let mut two = header(2, 0, 23);
    two.extend(word(1));
    two.extend(word(1));
    assert_eq!(decode_pg_array(Some(&two)), Err(PgArrayError::MultiDimensional));
    let mut missing_length = header(1, 0, 23);
    missing_length.extend(word(1));
    missing_length.extend(word(1));
    missing_length.extend([0, 0]);
    assert_eq!(decode_pg_array(Some(&missing_length)), Err(PgArrayError::Truncated));
}

#[test]
fn negative_count_reads_no_element() {
    let mut bytes = header(1, 0, 23);
    bytes.extend(word(-4));
    bytes.extend(word(1));
    assert_eq!(decode_pg_array(Some(&bytes)), Ok(vec![]));
}

#[test]
fn overlong_element_cannot_be_read() {
    let mut bytes = header(1, 0, 23);
    bytes.extend(word(1));
    bytes.extend(word(1));
    bytes.extend(word(5));
    bytes.extend([1, 2]);
    assert!(!pg_array_readable(Some(&bytes)));
    assert!(pg_array_readable(None));
}

#[test]
fn trailing_bytes_are_ignored() {
    let mut bytes = encode_pg_array(23, &vec![Some(vec![4u8])]);
    bytes.extend([1, 2, 3]);
    assert_eq!(decode_pg_array(Some(&bytes)), Ok(vec![Some(vec![4u8])]));
}

#[test]
fn error_messages() {
    assert_eq!(PgArrayError::UnexpectedNull.message(), "Unexpected null for non-null column");
    assert_eq!(PgArrayError::MultiDimensional.message(), "multi-dimensional arrays are not supported");
    assert_eq!(PgArrayError::Truncated.message(), "failed to fill whole buffer");
}
