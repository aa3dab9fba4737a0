use gatha_transcribe::filestore::{FileStoreError, LocalFileStore, MAX_FILE_SIZE};
use gatha_transcribe::upload::{
    content_type_for_extension, get_content_type, needs_faststart, parse_range_header, plan_stream,
    storage_file_name, StreamPlan,
};

#[test]
fn range_start_end() {
    assert_eq!(parse_range_header("bytes=0-1023", 10240), Some((0, 1023)));
}

#[test]
fn range_end_is_clamped_to_file() {
    assert_eq!(parse_range_header("bytes=100-99999", 1000), Some((100, 999)));
}

#[test]
fn range_open_end() {
    assert_eq!(parse_range_header("bytes=500-", 1000), Some((500, 999)));
}

#[test]
fn range_suffix() {
    assert_eq!(parse_range_header("bytes=-100", 1000), Some((900, 999)));
    assert_eq!(parse_range_header("bytes=-5000", 1000), Some((0, 999)));
}

#[test]
fn range_with_white_space() {
    assert_eq!(parse_range_header("  bytes= 10 - 20 ", 1000), Some((10, 20)));
}

#[test]
fn range_malformed() {
    assert_eq!(parse_range_header("bytes=-", 1000), None);
    assert_eq!(parse_range_header("items=0-10", 1000), None);
    assert_eq!(parse_range_header("bytes=0-10-20", 1000), None);
    assert_eq!(parse_range_header("bytes=10", 1000), None);
    assert_eq!(parse_range_header("bytes=a-10", 1000), None);
    assert_eq!(parse_range_header("bytes=0-x", 1000), None);
    assert_eq!(parse_range_header("byte", 1000), None);
    assert_eq!(parse_range_header("bytes=99999999999999999999-", 1000), None);
}

#[test]
fn range_start_past_end_is_parsed() {
    assert_eq!(parse_range_header("bytes=5000-6000", 1000), Some((5000, 999)));
}

#[test]
fn content_types() {
    assert_eq!(get_content_type("abc.mp4"), "video/mp4");
    assert_eq!(get_content_type("dir/abc.mov"), "video/quicktime");
    assert_eq!(get_content_type("abc.avi"), "video/x-msvideo");
    assert_eq!(get_content_type("abc.webm"), "video/webm");
    assert_eq!(get_content_type("abc.mkv"), "video/x-matroska");
    assert_eq!(get_content_type("abc.MP4"), "application/octet-stream");
    assert_eq!(get_content_type("abc"), "application/octet-stream");
    assert_eq!(get_content_type(".mp4"), "application/octet-stream");
    assert_eq!(content_type_for_extension(Some("mkv")), "video/x-matroska");
    assert_eq!(content_type_for_extension(None), "application/octet-stream");
}

#[test]
fn storage_names() {
    assert_eq!(storage_file_name("1234", "holiday.mov"), "1234.mov");
    assert_eq!(storage_file_name("1234", "archive.tar.gz"), "1234.gz");
    assert_eq!(storage_file_name("1234", "noext"), "1234.mp4");
}

#[test]
fn faststart_only_for_mp4() {
    assert!(needs_faststart("x.mp4"));
    assert!(needs_faststart("x.MP4"));
    assert!(!needs_faststart("x.mov"));
    assert!(!needs_faststart("mp4"));
}

#[test]
fn stream_plans() {
    assert_eq!(plan_stream(None, 10240), StreamPlan::Full);
    assert_eq!(
        plan_stream(Some("bytes=0-1023"), 10240),
        StreamPlan::Partial { start: 0, end: 1023, content_length: 1024 }
    );
    assert_eq!(
        plan_stream(Some("bytes=41943040-42991615"), 52428800),
        StreamPlan::Partial { start: 41943040, end: 42991615, content_length: 1048576 }
    );
    assert_eq!(plan_stream(Some("bytes=20000-"), 10240), StreamPlan::NotSatisfiable { start: 20000 });
    assert_eq!(plan_stream(Some("bytes=50-10"), 10240), StreamPlan::NotSatisfiable { start: 50 });
    assert_eq!(plan_stream(Some("garbage"), 10240), StreamPlan::Full);
    assert_eq!(plan_stream(Some("bytes=0-10"), 0), StreamPlan::Full);
}

#[test]
fn file_paths_join_base_and_id() {
    let store = LocalFileStore::new("/tmp/filestore".to_string());
    assert_eq!(store.get_file_path("video.mp4"), "/tmp/filestore/video.mp4");
    assert_eq!(store.get_file_path("/abs/video.mp4"), "/abs/video.mp4");
}

#[test]
fn upload_size_limit() {
    assert_eq!(LocalFileStore::add_chunk(0, 1024).ok(), Some(1024));
    assert_eq!(LocalFileStore::add_chunk(MAX_FILE_SIZE - 10, 10).ok(), Some(MAX_FILE_SIZE));
    assert!(matches!(
        LocalFileStore::add_chunk(MAX_FILE_SIZE - 10, 11),
        Err(FileStoreError::FileTooLarge(m)) if m == MAX_FILE_SIZE
    ));
    assert!(matches!(LocalFileStore::add_chunk(u64::MAX, u64::MAX), Err(FileStoreError::FileTooLarge(_))));
}
