use serde_beve::de::Deserializer;
use serde_beve::ser::Serializer;
use serde_beve::{Error, IoError};

fn written(n: usize) -> Vec<u8> {
    let mut s = Serializer::new(Vec::new());
    s.serialize_size(n).unwrap();
    s.into_inner()
}

#[test]
fn size_bytes_are_exact() {
    assert_eq!(written(0), vec![0]);
    assert_eq!(written(1), vec![4]);
    assert_eq!(written(63), vec![0xFC]);
    assert_eq!(written(64), vec![0x01, 0x01]);
    assert_eq!(written(16383), vec![0xFD, 0xFF]);
    assert_eq!(written(16384), vec![0x02, 0x00, 0x01, 0x00]);
    assert_eq!(written((1 << 30) - 1), vec![0xFE, 0xFF, 0xFF, 0xFF]);
}

#[test]
fn size_round_trips_at_the_width_boundaries() {
    let mut cases: Vec<usize> = vec![0, 63, 64, 16383, 16384, (1 << 30) - 1];
    if usize::BITS >= 64 {
        cases.push(1 << 30);
        cases.push(((1u64 << 62) - 1) as usize);
    }
    for n in cases {
        let bytes = written(n);
        let mut d = Deserializer::new(&bytes);
        assert_eq!(d.get_size(), Ok(n));
        assert_eq!(d.get_byte(), Err(Error::Io(IoError::UnexpectedEof)));
    }
}

#[test]
fn eight_byte_sizes_are_exact() {
    if usize::BITS >= 64 {
        assert_eq!(written(1 << 30), vec![0x03, 0, 0, 0, 0x01, 0, 0, 0]);
        assert_eq!(
            written(((1u64 << 62) - 1) as usize),
            vec![0xFF, 0xFF, 0xFF, 0xFF, 0xFF, 0xFF, 0xFF, 0xFF]
        );
    }
}

#[test]
fn size_of_two_to_the_62_is_too_long() {
    if usize::BITS >= 64 {
        let mut s = Serializer::new(vec![9]);
        assert_eq!(s.serialize_size((1u64 << 62) as usize), Err(Error::TooLong));
        assert_eq!(s.serialize_size(usize::MAX), Err(Error::TooLong));
        assert_eq!(s.into_inner(), vec![9]);
    }
}

#[test]
fn size_wider_than_usize_is_too_long() {
    let bytes = [0x03u8, 0, 0, 0, 0, 0, 0, 0];
    let mut d = Deserializer::new(&bytes);
    if usize::BITS >= 64 {
        assert_eq!(d.get_size(), Ok(0));
    } else {
        assert_eq!(d.get_size(), Err(Error::TooLong));
    }
}

#[test]
fn size_is_read_from_the_selected_width_only() {
    let bytes = [0x01u8, 0x01, 0xAA];
    let mut d = Deserializer::new(&bytes);
    assert_eq!(d.get_size(), Ok(64));
    assert_eq!(d.get_byte(), Ok(0xAA));
}

#[test]
fn size_that_ends_early_is_an_io_error() {
    let empty: [u8; 0] = [];
    let mut d = Deserializer::new(&empty);
    assert_eq!(d.get_size(), Err(Error::Io(IoError::UnexpectedEof)));
    let bytes = [0x02u8, 0x00, 0x01];
    let mut d = Deserializer::new(&bytes);
    assert_eq!(d.get_size(), Err(Error::Io(IoError::UnexpectedEof)));
    assert_eq!(d.get_byte(), Ok(0x00));
}

#[test]
fn str_value_is_length_then_bytes() {
    let mut s = Serializer::new(Vec::new());
    s.serialize_str_value(b"abc").unwrap();
    s.serialize_str_value(b"").unwrap();
    assert_eq!(s.into_inner(), vec![12, b'a', b'b', b'c', 0]);
}

#[test]
fn num_array_is_count_then_bare_payloads() {
    let mut s = Serializer::new(Vec::new());
    s.serialize_num_array(&[1u16, 0x0203]).unwrap();
    s.serialize_num_array::<i8>(&[-1]).unwrap();
    assert_eq!(s.into_inner(), vec![8, 1, 0, 3, 2, 4, 0xFF]);
}
