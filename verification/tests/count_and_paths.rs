use std::path::PathBuf;

use tonic::Code;
use tonic::Status;

use rs_reconcile::count::cnt_raw_parser_new_fn;
use rs_reconcile::count::cnt_src_raw_parsed_new;
use rs_reconcile::count::CountRawParser;
use rs_reconcile::source::fs::key2path::key2path_fn_new;
use rs_reconcile::source::fs::key2path::KeyToPath;
use rs_reconcile::source::fs::key2raw::key2raw_fs_new;
use rs_reconcile::source::fs::path2raw::path2raw_new_fn;
use rs_reconcile::source::fs::path2raw::path_read_error;
use rs_reconcile::source::fs::path2raw::path_to_raw_result;
use rs_reconcile::source::fs::path2raw::read_error_status;
use rs_reconcile::io_error::IoErrorKind;

fn parse_decimal(raw: &[u8]) -> Result<u64, Status> {
    let text = std::str::from_utf8(raw).map_err(|_| Status::invalid_argument("not utf-8"))?;
    text.trim()
        .parse::<u64>()
        .map_err(|_| Status::invalid_argument("not a count"))
}

#[test]
fn key2path_calls_the_function() {
    let m = key2path_fn_new(|k: &u32| PathBuf::from(format!("root/{k}/rows.jsonl")));
    assert_eq!(m.key2path(&7), PathBuf::from("root/7/rows.jsonl"));
    assert_eq!(m.key2path(&12), PathBuf::from("root/12/rows.jsonl"));
}

#[test]
fn raw_path_is_the_mapped_path() {
    let m = key2path_fn_new(|k: &String| PathBuf::from("base").join(k).join("stat.json"));
    let reader = path2raw_new_fn(|p: PathBuf| p);
    let s = key2raw_fs_new(m, reader);
    assert_eq!(s.raw_path(&"dev".to_string()), PathBuf::from("base/dev/stat.json"));
    assert_eq!((s.reader().read_fn())(PathBuf::from("q")), PathBuf::from("q"));
}

#[test]
fn parser_calls_the_function() {
    let p = cnt_raw_parser_new_fn(parse_decimal);
    assert_eq!(p.parse(b"42").unwrap(), 42);
    let e = p.parse(b"forty").unwrap_err();
    assert_eq!(e.code(), Code::InvalidArgument);
    assert_eq!(e.message(), "not a count");
}

#[test]
fn raw_failure_passes_unchanged() {
    let s = cnt_src_raw_parsed_new((), cnt_raw_parser_new_fn(parse_decimal));
    let e = s.count_from_raw(Err(Status::unavailable("down"))).unwrap_err();
    assert_eq!(e.code(), Code::Unavailable);
    assert_eq!(e.message(), "down");
}

#[test]
fn raw_bytes_are_parsed() {
    let s = cnt_src_raw_parsed_new(5u8, cnt_raw_parser_new_fn(parse_decimal));
    assert_eq!(*s.raw(), 5u8);
    assert_eq!(s.count_from_raw(Ok(b"17\n".to_vec())).unwrap(), 17);
    let e = s.count_from_raw(Ok(b"x".to_vec())).unwrap_err();
    assert_eq!(e.code(), Code::InvalidArgument);
}

#[test]
fn missing_file_status() {
    let s = read_error_status(IoErrorKind::NotFound, "\"a/b\"", "gone");
    assert_eq!(s.code(), Code::NotFound);
    assert_eq!(s.message(), "no such file(\"a/b\"): gone");
}

#[test]
fn unreadable_file_status() {
    let s = read_error_status(IoErrorKind::Other, "\"a/b\"", "denied");
    assert_eq!(s.code(), Code::Internal);
    assert_eq!(s.message(), "unable to read the file(\"a/b\"): denied");
}

#[test]
fn io_not_found_is_reported_not_found() {
    let e = std::io::Error::new(std::io::ErrorKind::NotFound, "gone");
    let s = path_read_error(&PathBuf::from("x/y"), &e);
    assert_eq!(s.code(), Code::NotFound);
    assert_eq!(s.message(), "no such file(\"x/y\"): gone");
}

#[test]
fn io_other_is_reported_internal() {
    let e = std::io::Error::new(std::io::ErrorKind::PermissionDenied, "denied");
    let s = path_read_error(&PathBuf::from("x/y"), &e);
    assert_eq!(s.code(), Code::Internal);
    assert_eq!(s.message(), "unable to read the file(\"x/y\"): denied");
}

#[test]
fn read_content_passes_unchanged() {
    let r = path_to_raw_result(&PathBuf::from("f"), Ok(vec![1, 2, 3]));
    assert_eq!(r.unwrap(), vec![1, 2, 3]);
    let e = std::io::Error::new(std::io::ErrorKind::NotFound, "nope");
    let r = path_to_raw_result(&PathBuf::from("f"), Err(e));
    let s = r.unwrap_err();
    assert_eq!(s.code(), Code::NotFound);
    assert_eq!(s.message(), "no such file(\"f\"): nope");
}

#[test]
fn read_error_codes_are_grpc_numbers() {
    assert_eq!(read_error_status(IoErrorKind::NotFound, "p", "e").code() as i32, 5);
    assert_eq!(read_error_status(IoErrorKind::Other, "p", "e").code() as i32, 13);
}
