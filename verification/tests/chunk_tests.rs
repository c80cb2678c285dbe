use biliup_app::chunk::{ChunkedBuffer, CHUNK_SIZE};
use bytes::Bytes;

#[test]
fn empty_block_yields_nothing() {
    let mut buf = ChunkedBuffer::new(Bytes::new());
    assert_eq!(buf.remaining_len(), 0);
    assert!(buf.progress().is_none());
}

#[test]
fn small_block_comes_out_whole() {
    let data = vec![1u8, 2, 3, 4, 5];
    let mut buf = ChunkedBuffer::new(Bytes::from(data.clone()));
    let (slice, emitted) = buf.progress().unwrap();
    assert_eq!(emitted, 5);
    assert_eq!(slice, Bytes::from(data));
    assert!(buf.progress().is_none());
}

#[test]
fn large_block_is_split_into_bounded_slices() {
    // Two and a half slices' worth of bytes.
    let len = 2 * CHUNK_SIZE + CHUNK_SIZE / 2;
    let data: Vec<u8> = (0..len).map(|i| (i % 251) as u8).collect();
    let mut buf = ChunkedBuffer::new(Bytes::from(data.clone()));

    let mut emitted_total = 0u64;
    let mut reassembled: Vec<u8> = Vec::new();
    let mut sizes: Vec<u64> = Vec::new();
    while let Some((slice, emitted)) = buf.progress() {
        assert_eq!(slice.len() as u64, emitted);
        assert!(emitted > 0 && emitted <= CHUNK_SIZE as u64);
        emitted_total += emitted;
        sizes.push(emitted);
        reassembled.extend_from_slice(&slice);
    }

    assert_eq!(
        sizes,
        vec![CHUNK_SIZE as u64, CHUNK_SIZE as u64, (CHUNK_SIZE / 2) as u64]
    );
    assert_eq!(emitted_total, len as u64);
    assert_eq!(reassembled, data);
}

#[test]
fn exact_multiple_of_chunk_size_leaves_no_tail() {
    let len = 2 * CHUNK_SIZE;
    let data: Vec<u8> = vec![7u8; len];
    let mut buf = ChunkedBuffer::new(Bytes::from(data));
    let mut count = 0;
    while let Some((_, emitted)) = buf.progress() {
        assert_eq!(emitted, CHUNK_SIZE as u64);
        count += 1;
    }
    assert_eq!(count, 2);
    assert_eq!(buf.remaining_len(), 0);
}

#[test]
fn slices_carry_the_right_bytes() {
    let mut data = vec![0u8; CHUNK_SIZE];
    data.extend_from_slice(&[9, 8, 7]);
    let mut buf = ChunkedBuffer::new(Bytes::from(data));
    let (first, _) = buf.progress().unwrap();
    assert_eq!(first, Bytes::from(vec![0u8; CHUNK_SIZE]));
    let (second, emitted) = buf.progress().unwrap();
    assert_eq!(emitted, 3);
    assert_eq!(second, Bytes::from(vec![9u8, 8, 7]));
    assert!(buf.progress().is_none());
}
