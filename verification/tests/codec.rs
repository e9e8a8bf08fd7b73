use typed_sled::serialize::{BincodeSerializer, Lazy, Serializer, KV};
use typed_sled::{deserialize, serialize};
use typed_sled::serialize::try_deserialize;

#[test]
fn test_lazy() {
    let ref_str_bytes =
        bincode::serialize::<&str>(&"hello there my darling how has your day been?").unwrap();
    let l = Lazy::<String>::new(ref_str_bytes);
    l.deserialize();
    assert_eq!(l.deserialize(), "hello there my darling how has your day been?");
    assert_eq!(l.try_deserialize().unwrap().len(), 45);
}

#[test]
fn strings_are_length_prefixed_utf8() {
    assert_eq!(serialize(&"asd".to_string()), vec![3, 0, 0, 0, 0, 0, 0, 0, 97, 115, 100]);
    assert_eq!(serialize(&String::new()), vec![0, 0, 0, 0, 0, 0, 0, 0]);
    assert_eq!(serialize(&"é".to_string()), vec![2, 0, 0, 0, 0, 0, 0, 0, 0xc3, 0xa9]);
    let long = "x".repeat(300);
    let bytes = serialize(&long);
    assert_eq!(&bytes[..8], &[44, 1, 0, 0, 0, 0, 0, 0]);
    assert_eq!(bytes.len(), 308);
    assert_eq!(deserialize::<String>(&bytes), long);
    assert_eq!(serialize(&long), bincode::serialize(&long).unwrap());
}

#[test]
fn strings_decode_only_from_enough_valid_utf8() {
    assert_eq!(try_deserialize::<String>(&[1, 0, 0, 0, 0, 0, 0, 0, 97]), Some("a".to_string()));
    // bytes after the string are ignored
    assert_eq!(try_deserialize::<String>(&[1, 0, 0, 0, 0, 0, 0, 0, 97, 98]), Some("a".to_string()));
    // the length is short of a full prefix
    assert_eq!(try_deserialize::<String>(&[1, 0, 0, 0, 0, 0, 0]), None);
    // fewer bytes than announced
    assert_eq!(try_deserialize::<String>(&[2, 0, 0, 0, 0, 0, 0, 0, 97]), None);
    assert_eq!(try_deserialize::<String>(&[255, 255, 255, 255, 255, 255, 255, 255, 97]), None);
    // not UTF-8
    assert_eq!(try_deserialize::<String>(&[1, 0, 0, 0, 0, 0, 0, 0, 0xff]), None);
    assert_eq!(try_deserialize::<String>(&[0, 0, 0, 0, 0, 0, 0, 0]), Some(String::new()));
}

#[test]
fn integers_are_fixed_width_little_endian() {
    assert_eq!(serialize(&5u64), vec![5, 0, 0, 0, 0, 0, 0, 0]);
    assert_eq!(serialize(&0x0102_0304u32), vec![4, 3, 2, 1]);
    assert_eq!(serialize(&0x0102u16), vec![2, 1]);
    assert_eq!(serialize(&7u8), vec![7]);
    assert_eq!(serialize(&-1i8), vec![255]);
    assert_eq!(serialize(&-2i16), vec![254, 255]);
    assert_eq!(serialize(&-1i32), vec![255, 255, 255, 255]);
    assert_eq!(serialize(&i64::MIN), vec![0, 0, 0, 0, 0, 0, 0, 128]);
}

#[test]
fn encoding_agrees_with_bincode() {
    assert_eq!(serialize(&-77i32), bincode::serialize(&-77i32).unwrap());
    assert_eq!(serialize(&-77i64), bincode::serialize(&-77i64).unwrap());
    assert_eq!(serialize(&-77i16), bincode::serialize(&-77i16).unwrap());
    assert_eq!(serialize(&-77i8), bincode::serialize(&-77i8).unwrap());
    assert_eq!(serialize(&u64::MAX), bincode::serialize(&u64::MAX).unwrap());
}

#[test]
fn decode_of_encode_is_the_value() {
    for x in [0u64, 1, 255, 256, u64::MAX] {
        assert_eq!(deserialize::<u64>(&serialize(&x)), x);
    }
    for x in [0u32, 1, 255, 256, u32::MAX] {
        assert_eq!(deserialize::<u32>(&serialize(&x)), x);
    }
    for x in [0u16, 1, 255, 256, u16::MAX] {
        assert_eq!(deserialize::<u16>(&serialize(&x)), x);
    }
    for x in [0u8, 1, 255] {
        assert_eq!(deserialize::<u8>(&serialize(&x)), x);
    }
    for x in [i64::MIN, -1, 0, 1, i64::MAX] {
        assert_eq!(deserialize::<i64>(&serialize(&x)), x);
    }
    for x in [i32::MIN, -1, 0, 1, i32::MAX] {
        assert_eq!(deserialize::<i32>(&serialize(&x)), x);
    }
    for x in [i16::MIN, -1, 0, 1, i16::MAX] {
        assert_eq!(deserialize::<i16>(&serialize(&x)), x);
    }
    for x in [i8::MIN, -1, 0, 1, i8::MAX] {
        assert_eq!(deserialize::<i8>(&serialize(&x)), x);
    }
}

#[test]
fn short_input_does_not_decode() {
    assert_eq!(try_deserialize::<u64>(&[1, 2, 3, 4, 5, 6, 7]), None);
    assert_eq!(try_deserialize::<u32>(&[1, 2, 3]), None);
    assert_eq!(try_deserialize::<u16>(&[1]), None);
    assert_eq!(try_deserialize::<u8>(&[]), None);
    assert_eq!(try_deserialize::<i32>(&[]), None);
    assert_eq!(u64::from_bytes(&[]), None);
}

#[test]
fn bytes_after_the_value_are_ignored() {
    assert_eq!(try_deserialize::<u32>(&[1, 0, 0, 0, 9, 9]), Some(1));
    assert_eq!(try_deserialize::<u8>(&[3, 4]), Some(3));
    assert_eq!(try_deserialize::<i16>(&[255, 255, 1]), Some(-1));
    assert_eq!(try_deserialize::<u64>(&[0, 1, 0, 0, 0, 0, 0, 0, 7]), Some(256));
}

#[test]
fn lazy_keeps_the_bytes_it_was_given() {
    let l = Lazy::<u32>::new(vec![1, 2, 3]);
    assert_eq!(l.as_bytes(), &[1, 2, 3]);
    assert_eq!(l.try_deserialize(), None);
    assert_eq!(6u32.to_bytes(), vec![6, 0, 0, 0]);
}

#[test]
fn a_string_slice_is_stored_as_its_string() {
    let owned = <BincodeSerializer as Serializer<String>>::serialize(&"asd".to_string());
    let borrowed = <BincodeSerializer as Serializer<str>>::serialize("asd");
    assert_eq!(owned, borrowed);
    assert_eq!(borrowed, vec![3, 0, 0, 0, 0, 0, 0, 0, 97, 115, 100]);
}
