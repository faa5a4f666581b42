use mindmap::codec::blob_to_vector;
use mindmap::codec::vector_to_blob;

#[test]
fn blob_is_little_endian() {
    let v: Vec<u32> = vec![0x0403_0201];
    let blob = vector_to_blob(&v);
    assert_eq!(blob, vec![0x01u8, 0x02, 0x03, 0x04]);
}

#[test]
fn empty_vector_round_trips() {
    let v: Vec<u32> = vec![];
    let blob = vector_to_blob(&v);
    assert_eq!(blob.len(), 0);
    let back = blob_to_vector(&blob).unwrap();
    assert_eq!(back, v);
}

#[test]
fn words_round_trip_bitwise() {
    let v: Vec<u32> = vec![0, 1, 0xdead_beef, u32::MAX, 0.25f32.to_bits(), (-1.5f32).to_bits()];
    let blob = vector_to_blob(&v);
    assert_eq!(blob.len(), 4 * v.len());
    let back = blob_to_vector(&blob).unwrap();
    assert_eq!(back, v);
}

#[test]
fn float_components_round_trip_bitwise() {
    let floats = [0.0f32, -0.0, 1.5, -2.25, f32::INFINITY, f32::MIN_POSITIVE];
    let v: Vec<u32> = floats.iter().map(|f| f.to_bits()).collect();
    let back = blob_to_vector(&vector_to_blob(&v)).unwrap();
    for (i, f) in floats.iter().enumerate() {
        assert_eq!(f32::from_bits(back[i]).to_bits(), f.to_bits());
    }
}

#[test]
fn rejects_blob_of_bad_length() {
    assert!(blob_to_vector(&vec![1u8, 2, 3]).is_none());
    assert!(blob_to_vector(&vec![1u8]).is_none());
    assert!(blob_to_vector(&vec![1u8, 2, 3, 4, 5]).is_none());
    assert!(blob_to_vector(&vec![]).is_some());
}
