use async_file::http::{parse_length, range_header};
use async_file::remote::{exists_from_head, metadata_from_head, seek_handle, RemoteRead};
use async_file::{Error, Metadata, RemoteFile, SeekFrom, Slot};

fn open_file(path: &str) -> RemoteFile {
    RemoteFile::open(path, true).unwrap()
}

#[test]
fn open_found_starts_at_zero() {
    let f = open_file("5MB.zip");
    assert_eq!(f.cursor(), 0);
    assert_eq!(f.path(), "5MB.zip");
}

#[test]
fn head_404_means_absent_and_open_not_found() {
    let found = exists_from_head(Ok(404));
    assert!(!found);
    let r = RemoteFile::open("missing.bin", found);
    assert!(matches!(r, Err(Error::NotFound)));
}

#[test]
fn exists_on_present_and_absent() {
    assert!(exists_from_head(Ok(200)));
    assert!(exists_from_head(Ok(206)));
    assert!(exists_from_head(Ok(299)));
    assert!(!exists_from_head(Ok(199)));
    assert!(!exists_from_head(Ok(300)));
    assert!(!exists_from_head(Ok(500)));
    assert!(!exists_from_head(Err(Error::Transport("offline".to_string()))));
}

#[test]
fn seek_start_forward_back_returns_to_zero() {
    let mut f = open_file("a");
    assert_eq!(f.seek(SeekFrom::Start(0)), Ok(0));
    assert_eq!(f.seek(SeekFrom::Current(100)), Ok(100));
    assert_eq!(f.seek(SeekFrom::Current(-100)), Ok(0));
    assert_eq!(f.cursor(), 0);
}

#[test]
fn seek_below_zero_fails_and_keeps_cursor() {
    let mut f = open_file("a");
    assert_eq!(f.seek(SeekFrom::Start(10)), Ok(10));
    assert_eq!(f.seek(SeekFrom::Current(-11)), Err(Error::Overflow));
    assert_eq!(f.cursor(), 10);
    assert_eq!(f.seek(SeekFrom::Current(i64::MIN)), Err(Error::Overflow));
    assert_eq!(f.cursor(), 10);
}

#[test]
fn seek_past_max_fails_and_keeps_cursor() {
    let mut f = open_file("a");
    assert_eq!(f.seek(SeekFrom::Start(u64::MAX - 5)), Ok(u64::MAX - 5));
    assert_eq!(f.seek(SeekFrom::Current(6)), Err(Error::Overflow));
    assert_eq!(f.cursor(), u64::MAX - 5);
    assert_eq!(f.seek(SeekFrom::Current(5)), Ok(u64::MAX));
}

#[test]
fn seek_from_end_is_unsupported() {
    let mut f = open_file("a");
    assert_eq!(f.seek(SeekFrom::Start(42)), Ok(42));
    assert_eq!(f.seek(SeekFrom::End(0)), Err(Error::Unsupported));
    assert_eq!(f.seek(SeekFrom::End(-10)), Err(Error::Unsupported));
    assert_eq!(f.cursor(), 42);
}

#[test]
fn range_request_header_and_url() {
    let mut f = open_file("5MB.zip");
    f.seek(SeekFrom::Start(1024)).unwrap();
    let q = f.range_request("http://example.com", 1024).unwrap();
    assert_eq!(q.url, "http://example.com/5MB.zip");
    assert_eq!(q.range, "bytes=1024-2048");
    let g = open_file("x");
    let q = g.range_request("http://h", 0).unwrap();
    assert_eq!(q.range, "bytes=0-0");
}

#[test]
fn range_request_past_max_overflows() {
    let mut f = open_file("x");
    f.seek(SeekFrom::Start(u64::MAX - 1)).unwrap();
    assert!(matches!(f.range_request("http://h", 2), Err(Error::Overflow)));
    assert!(f.range_request("http://h", 1).is_ok());
}

#[test]
fn range_header_values() {
    assert_eq!(range_header(0, 9), "bytes=0-9");
    assert_eq!(range_header(10, 1000), "bytes=10-1000");
    assert_eq!(range_header(u64::MAX, u64::MAX), "bytes=18446744073709551615-18446744073709551615");
}

#[test]
fn length_header_parsing() {
    assert_eq!(parse_length("5242880"), Some(5242880));
    assert_eq!(parse_length("0"), Some(0));
    assert_eq!(parse_length("18446744073709551615"), Some(u64::MAX));
    assert_eq!(parse_length("18446744073709551616"), None);
    assert_eq!(parse_length(""), None);
    assert_eq!(parse_length("12a"), None);
    assert_eq!(parse_length("-1"), None);
    assert_eq!(parse_length(" 1"), None);
}

#[test]
fn metadata_from_head_cases() {
    assert_eq!(metadata_from_head(200, Some("5242880")), Ok(Metadata::new(5242880)));
    assert_eq!(metadata_from_head(404, Some("10")), Err(Error::HttpStatus(404)));
    assert_eq!(metadata_from_head(200, None), Err(Error::BadLength));
    assert_eq!(metadata_from_head(200, Some("ten")), Err(Error::BadLength));
}

fn run_read(size: usize, chunks: &[&[u8]]) -> Vec<u8> {
    let mut rr = RemoteRead::begin(size, 206, true).unwrap();
    for c in chunks {
        if rr.is_full() {
            break;
        }
        rr.take_chunk(c);
    }
    rr.finish().into_vec()
}

#[test]
fn read_stops_at_size() {
    let out = run_read(5, &[&[1, 2, 3], &[4, 5, 6, 7], &[8]]);
    assert_eq!(out, vec![1, 2, 3, 4, 5]);
}

#[test]
fn read_short_when_body_ends() {
    let out = run_read(10, &[&[1, 2], &[3]]);
    assert_eq!(out, vec![1, 2, 3]);
}

#[test]
fn read_of_empty_body_is_empty() {
    let out = run_read(1024, &[]);
    assert!(out.is_empty());
}

#[test]
fn read_of_zero_bytes_is_full_at_once() {
    let rr = RemoteRead::begin(0, 200, true).unwrap();
    assert!(rr.is_full());
    assert_eq!(rr.finish().len(), 0);
}

#[test]
fn take_chunk_reports_full() {
    let mut rr = RemoteRead::begin(4, 200, true).unwrap();
    assert!(!rr.take_chunk(&[9, 9]));
    assert!(rr.take_chunk(&[8, 8, 8]));
    assert_eq!(rr.finish().into_vec(), vec![9, 9, 8, 8]);
}

#[test]
fn read_response_errors() {
    assert!(matches!(RemoteRead::begin(4, 416, true), Err(Error::HttpStatus(416))));
    assert!(matches!(RemoteRead::begin(4, 200, false), Err(Error::NoBody)));
}

#[test]
fn read_after_seek_matches_reference_bytes() {
    let reference: Vec<u8> = (0..4096u32).map(|i| (i * 7 % 251) as u8).collect();
    let mut f = open_file("data.bin");
    assert_eq!(f.seek(SeekFrom::Start(1024)), Ok(1024));
    let q = f.range_request("http://h", 1024).unwrap();
    assert_eq!(q.range, "bytes=1024-2048");
    // The origin answers with the inclusive range, in uneven chunks.
    let body = &reference[1024..=2048];
    let chunks: Vec<&[u8]> = body.chunks(300).collect();
    let out = run_read(1024, &chunks);
    assert_eq!(out.len(), 1024);
    assert_eq!(&out[..], &reference[1024..2048]);
    // A read does not move the cursor.
    assert_eq!(f.cursor(), 1024);
}

#[test]
fn second_operation_while_busy_fails() {
    let mut h = Slot::new(open_file("a"));
    let f = h.check_out().unwrap();
    assert!(h.is_busy());
    assert!(matches!(h.check_out(), Err(Error::Busy)));
    assert_eq!(seek_handle(&mut h, SeekFrom::Start(5)), Err(Error::Busy));
    h.check_in(f);
    assert!(!h.is_busy());
    assert_eq!(seek_handle(&mut h, SeekFrom::Start(5)), Ok(5));
    assert_eq!(seek_handle(&mut h, SeekFrom::Current(-6)), Err(Error::Overflow));
    assert_eq!(h.check_out().unwrap().cursor(), 5);
}
