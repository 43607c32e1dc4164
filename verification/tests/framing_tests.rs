use sloppy::framing::extract_data_payloads;
use sloppy::framing::is_data_line;
use sloppy::framing::split_lines;


#[test]
fn lines_split_at_line_feed() {
    assert_eq!(split_lines(b"a\nb"), vec![b"a".to_vec(), b"b".to_vec()]);
    assert_eq!(
        split_lines(b"a\n\nb"),
        vec![b"a".to_vec(), b"".to_vec(), b"b".to_vec()]
    );
}

#[test]
fn lines_drop_carriage_return_before_line_feed() {
    assert_eq!(
        split_lines(b"a\r\nb\r\n"),
        vec![b"a".to_vec(), b"b".to_vec()]
    );
}

#[test]
fn lines_no_empty_line_after_final_line_feed() {
    assert_eq!(split_lines(b"a\n"), vec![b"a".to_vec()]);
    assert_eq!(split_lines(b"\n"), vec![b"".to_vec()]);
    assert_eq!(split_lines(b""), Vec::<Vec<u8>>::new());
}

#[test]
fn lines_keep_trailing_carriage_return_without_line_feed() {
    assert_eq!(split_lines(b"a\r"), vec![b"a\r".to_vec()]);
    assert_eq!(
        split_lines(b"a\r\rb"),
        vec![b"a\r\rb".to_vec()]
    );
}

#[test]
fn data_line_prefix_detection() {
    assert!(is_data_line(&b"data:".to_vec()));
    assert!(is_data_line(&b"data: {}".to_vec()));
    assert!(!is_data_line(&b"data".to_vec()));
    assert!(!is_data_line(&b"Data: x".to_vec()));
    assert!(!is_data_line(&b"event: y".to_vec()));
    assert!(!is_data_line(&b"".to_vec()));
}

#[test]
fn payloads_keep_only_data_lines() {
    let chunk = b"data: {\"a\":1}\r\nevent: tick\ndata:z\n";
    assert_eq!(
        extract_data_payloads(chunk),
        vec![b" {\"a\":1}".to_vec(), b"z".to_vec()]
    );
}

#[test]
fn payloads_of_bare_prefix_are_empty() {
    assert_eq!(extract_data_payloads(b"data:"), vec![b"".to_vec()]);
}

#[test]
fn payloads_of_chunk_without_data_lines() {
    assert_eq!(
        extract_data_payloads(b"event: a\n: comment\n"),
        Vec::<Vec<u8>>::new()
    );
}

#[test]
fn payloads_keep_line_order() {
    let chunk = b"data:1\ndata:2\ndata:3";
    assert_eq!(
        extract_data_payloads(chunk),
        vec![b"1".to_vec(), b"2".to_vec(), b"3".to_vec()]
    );
}
