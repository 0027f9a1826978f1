use libcdio_rs::reader::{
    iso_block_lsn, udf_block_offset, EntryReadState, SeekPosition, BLOCK_SIZE,
};

/// The data of an entry of `len` bytes: byte `i` is `i % 251`.
fn data(len: usize) -> Vec<u8> {
    (0..len).map(|i| (i % 251) as u8).collect()
}

/// Block `index` of `data`, padded with zeros.
fn block_of(data: &[u8], index: usize) -> Vec<u8> {
    let mut block = vec![0u8; BLOCK_SIZE];
    let start = index * BLOCK_SIZE;
    for k in 0..BLOCK_SIZE {
        if start + k < data.len() {
            block[k] = data[start + k];
        }
    }
    block
}

/// One whole read into `buf`, the way a reader drives the state.
fn read(state: &mut EntryReadState, data: &[u8], buf: &mut [u8]) -> usize {
    let mut buf_read = 0;
    while let Some(index) = state.next_block(buf_read, buf.len()) {
        let block = block_of(data, index);
        buf_read = state.consume_block(&block, buf, buf_read);
    }
    buf_read
}

#[test]
fn read_whole_entry() {
    let content = data(17992);
    let mut state = EntryReadState::new(content.len() as u64);
    let mut out = Vec::new();
    let mut buf = vec![0u8; 1000];
    loop {
        let n = read(&mut state, &content, &mut buf);
        if n == 0 {
            break;
        }
        out.extend_from_slice(&buf[..n]);
    }
    assert_eq!(out, content);
    assert_eq!(state.bytes_read(), 17992);
}

#[test]
fn read_into_large_buffer_stops_at_end() {
    let content = data(3000);
    let mut state = EntryReadState::new(3000);
    let mut buf = vec![0xAAu8; 5000];
    assert_eq!(read(&mut state, &content, &mut buf), 3000);
    assert_eq!(&buf[..3000], &content[..]);
    assert!(buf[3000..].iter().all(|b| *b == 0xAA));
    assert_eq!(read(&mut state, &content, &mut buf), 0);
}

#[test]
fn read_after_seek() {
    let content = data(5000);
    let mut state = EntryReadState::new(5000);
    assert_eq!(state.seek(SeekPosition::Start(2040)), 2040);
    let mut buf = vec![0u8; 20];
    assert_eq!(read(&mut state, &content, &mut buf), 20);
    assert_eq!(&buf[..], &content[2040..2060]);
    assert_eq!(state.bytes_read(), 2060);
}

#[test]
fn next_block_follows_position() {
    let mut state = EntryReadState::new(10_000);
    assert_eq!(state.next_block(0, 10), Some(0));
    state.seek(SeekPosition::Start(4096));
    assert_eq!(state.next_block(0, 10), Some(2));
    assert_eq!(state.next_block(10, 10), None);
    state.seek(SeekPosition::End(0));
    assert_eq!(state.next_block(0, 10), None);
}

#[test]
fn seek_saturates() {
    let mut state = EntryReadState::new(100);
    assert_eq!(state.seek(SeekPosition::End(-30)), 70);
    assert_eq!(state.seek(SeekPosition::Current(-100)), 0);
    assert_eq!(state.seek(SeekPosition::Current(5)), 5);
    assert_eq!(state.seek(SeekPosition::End(-200)), 0);
    assert_eq!(state.seek(SeekPosition::End(i64::MAX)), 100 + i64::MAX as u64);
    assert_eq!(state.file_size(), 100);
}

#[test]
fn block_sectors() {
    assert_eq!(iso_block_lsn(27, 0), Some(27));
    assert_eq!(iso_block_lsn(27, 8), Some(35));
    assert_eq!(iso_block_lsn(i32::MAX, 1), None);
    assert_eq!(udf_block_offset(3), Some(6144));
    assert_eq!(udf_block_offset(usize::MAX), None);
}
