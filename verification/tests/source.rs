use libwebp_image::ByteSource;

#[test]
fn a_source_in_memory_gives_what_is_asked_for() {
    let data: Vec<u8> = (0..10).collect();
    let mut source = ByteSource::from_memory(data.clone());
    assert_eq!(source.read(4), &data[..4]);
    assert_eq!(source.read(0), &[] as &[u8]);
    assert_eq!(source.read(4), &data[4..8]);
    assert_eq!(source.read(4), &data[8..]);
    assert_eq!(source.read(4), &[] as &[u8]);
    assert_eq!(source.read(4), &[] as &[u8]);
}

#[test]
fn a_fragmented_source_caps_its_reads() {
    let data: Vec<u8> = (0..20).collect();
    let mut source = ByteSource::fragmented(data.clone(), vec![3, 0, 100, 2]);
    assert_eq!(source.read(10), &data[..3]);
    // A cap of zero counts as one.
    assert_eq!(source.read(10), &data[3..4]);
    assert_eq!(source.read(10), &data[4..14]);
    assert_eq!(source.read(10), &data[14..16]);
    // The caps are used up.
    assert_eq!(source.read(3), &data[16..19]);
    assert_eq!(source.read(3), &data[19..]);
    assert_eq!(source.read(3), &[] as &[u8]);
}

#[test]
fn a_read_of_nothing_uses_up_a_cap() {
    let data: Vec<u8> = (0..6).collect();
    let mut source = ByteSource::fragmented(data.clone(), vec![1, 2]);
    assert_eq!(source.read(0), &[] as &[u8]);
    assert_eq!(source.read(5), &data[..2]);
    assert_eq!(source.read(5), &data[2..]);
}

#[test]
fn the_rest_comes_in_one_piece() {
    let data: Vec<u8> = (0..50).collect();
    let mut source = ByteSource::fragmented(data.clone(), vec![1, 1, 1, 1]);
    assert_eq!(source.read(8), &data[..1]);
    assert_eq!(source.read_to_end(), &data[1..]);
    assert_eq!(source.read_to_end(), &[] as &[u8]);
    assert_eq!(source.read(8), &[] as &[u8]);

    let mut empty = ByteSource::from_memory(Vec::new());
    assert_eq!(empty.read_to_end(), &[] as &[u8]);
}
