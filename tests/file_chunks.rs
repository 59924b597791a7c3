use dify_client::{FileBuffer, CHUNK_SIZE};

fn read_in_chunks(file: &[u8]) -> (Vec<u8>, usize) {
    let mut buf = FileBuffer::new();
    let mut reads = 0;
    let mut pos = 0;
    loop {
        let end = (pos + CHUNK_SIZE).min(file.len());
        reads += 1;
        if !buf.absorb(&file[pos..end]) {
            break;
        }
        pos = end;
    }
    (buf.into_bytes(), reads)
}

fn sample(n: usize) -> Vec<u8> {
    (0..n).map(|i| (i * 7 % 251) as u8).collect()
}

#[test]
fn chunked_read_of_empty_file() {
    let (bytes, reads) = read_in_chunks(&[]);
    assert!(bytes.is_empty());
    assert_eq!(reads, 1);
}

#[test]
fn chunked_read_shorter_than_chunk() {
    let f = sample(100);
    let (bytes, reads) = read_in_chunks(&f);
    assert_eq!(bytes, f);
    assert_eq!(reads, 2);
}

#[test]
fn chunked_read_of_exactly_one_chunk() {
    let f = sample(CHUNK_SIZE);
    let (bytes, reads) = read_in_chunks(&f);
    assert_eq!(bytes.len(), 1024);
    assert_eq!(bytes, f);
    assert_eq!(reads, 2);
}

#[test]
fn chunked_read_one_past_a_chunk() {
    let f = sample(CHUNK_SIZE + 1);
    let (bytes, reads) = read_in_chunks(&f);
    assert_eq!(bytes, f);
    assert_eq!(reads, 3);
    let (again, _) = read_in_chunks(&f);
    assert_eq!(again, bytes);
}

#[test]
fn absorb_reports_end_on_empty_read() {
    let mut buf = FileBuffer::new();
    assert!(buf.absorb(&[1, 2]));
    assert!(buf.absorb(&[3]));
    assert!(!buf.absorb(&[]));
    assert_eq!(buf.len(), 3);
    assert_eq!(buf.into_bytes(), vec![1, 2, 3]);
}
