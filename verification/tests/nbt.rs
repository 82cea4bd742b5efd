use ferrumc::nbt::{read_one, value_length, ByteStream, NbtError, END};

/// A compound holding one int under one name, in the network form.
fn a_compound() -> Vec<u8> {
    let mut out = vec![10]; // a compound, with no name in front of it
    out.push(3); // an int
    out.extend_from_slice(&2u16.to_be_bytes()); // named
    out.extend_from_slice(b"id");
    out.extend_from_slice(&7i32.to_be_bytes());
    out.push(END);
    out
}

#[test]
fn one_value_is_read_and_nothing_after_it() {
    let mut stream = a_compound();
    let trailing = [0xAB, 0xCD];
    stream.extend_from_slice(&trailing);

    let mut reader = ByteStream::new(stream);
    let read = read_one(&mut reader).expect("a compound reads");
    assert_eq!(read, a_compound());

    let rest = reader.rest();
    assert_eq!(rest, trailing, "and was not eaten");
}

#[test]
fn several_in_a_row_each_stop_where_they_end() {
    let mut stream = a_compound();
    stream.extend_from_slice(&a_compound());
    let mut reader = ByteStream::new(stream);

    assert_eq!(read_one(&mut reader).expect("the first"), a_compound());
    assert_eq!(read_one(&mut reader).expect("the second"), a_compound());
}

#[test]
fn nothing_at_all_is_one_byte() {
    let mut reader = ByteStream::new(vec![END, 0x42]);
    assert_eq!(read_one(&mut reader).expect("an end reads"), vec![END]);
}

#[test]
fn a_list_of_compounds_reads() {
    let mut stream = vec![9, 10]; // a list of compounds
    stream.extend_from_slice(&2i32.to_be_bytes());
    for _ in 0..2 {
        stream.push(3); // an int
        stream.extend_from_slice(&1u16.to_be_bytes());
        stream.extend_from_slice(b"n");
        stream.extend_from_slice(&1i32.to_be_bytes());
        stream.push(END);
    }
    let whole = stream.len();
    stream.push(0x99);

    let mut reader = ByteStream::new(stream);
    assert_eq!(read_one(&mut reader).expect("a list reads").len(), whole);
}

#[test]
fn a_tag_that_does_not_exist_is_refused_rather_than_guessed_at() {
    let mut reader = ByteStream::new(vec![99]);
    assert!(read_one(&mut reader).is_err());
}

#[test]
fn something_that_opens_forever_is_refused_rather_than_crashing() {
    // A stream is not to be trusted: a thousand opened compounds and no ends.
    let stream = vec![10u8; 2000];
    let mut reader = ByteStream::new(stream);
    assert!(read_one(&mut reader).is_err());
}

#[test]
fn a_negative_length_is_refused() {
    let mut stream = vec![7]; // a byte array
    stream.extend_from_slice(&(-1i32).to_be_bytes());
    let mut reader = ByteStream::new(stream);
    assert!(read_one(&mut reader).is_err());
}

#[test]
fn each_refusal_of_a_value_says_why() {
    assert_eq!(value_length(&[]), Err(NbtError::Ended));
    assert_eq!(value_length(&[99]), Err(NbtError::NoSuchTag(99)));
    assert_eq!(value_length(&[7, 0xff, 0, 0, 0]), Err(NbtError::NegativeLength));
    assert_eq!(value_length(&[9, 0, 0, 0, 0, 1]), Err(NbtError::ListOfNothing));
    assert_eq!(value_length(&[9, 0, 0, 0, 0, 0]), Ok(6));
    let mut deep = vec![9u8];
    for _ in 0..600 {
        deep.extend_from_slice(&[9, 0, 0, 0, 1]);
    }
    assert_eq!(value_length(&deep), Err(NbtError::TooDeep));
    assert_eq!(value_length(&[10, 10, 10]), Err(NbtError::Ended));
    // A string's length is two bytes and unsigned.
    assert_eq!(value_length(&[8, 0xff, 0xff]), Err(NbtError::Ended));
    assert_eq!(value_length(&[8, 0, 2, b'h', b'i']), Ok(5));
}

#[test]
fn a_value_that_runs_out_uses_up_the_stream() {
    let mut reader = ByteStream::new(vec![3, 0, 0]);
    assert_eq!(read_one(&mut reader), Err(NbtError::Ended));
    assert_eq!(reader.rest(), Vec::<u8>::new());
}

#[test]
fn a_malformed_value_leaves_the_stream_just_past_what_gave_it_away() {
    let mut reader = ByteStream::new(vec![99, 1, 2]);
    assert_eq!(read_one(&mut reader), Err(NbtError::NoSuchTag(99)));
    assert_eq!(reader.rest(), vec![1, 2]);

    let mut reader = ByteStream::new(vec![7, 0xff, 0, 0, 0, 5]);
    assert_eq!(read_one(&mut reader), Err(NbtError::NegativeLength));
    assert_eq!(reader.rest(), vec![5]);

    // A compound holding a list of nothing that claims one item, and then more.
    let mut reader = ByteStream::new(vec![10, 9, 0, 1, b'l', 0, 0, 0, 0, 1, 42]);
    assert_eq!(read_one(&mut reader), Err(NbtError::ListOfNothing));
    assert_eq!(reader.rest(), vec![42]);
}

#[test]
fn arrays_are_as_long_as_their_items() {
    let mut longs = vec![12];
    longs.extend_from_slice(&2i32.to_be_bytes());
    longs.extend_from_slice(&[0u8; 16]);
    assert_eq!(value_length(&longs), Ok(21));
    let mut ints = vec![11];
    ints.extend_from_slice(&3i32.to_be_bytes());
    ints.extend_from_slice(&[0u8; 12]);
    assert_eq!(value_length(&ints), Ok(17));
}
