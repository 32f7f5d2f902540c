use mjpeg_stream::framing::build_part;
use mjpeg_stream::framing::decimal_string;
use mjpeg_stream::framing::part_head;
use mjpeg_stream::framing::response_header;

#[test]
fn header_exact() {
    let h = response_header();
    assert_eq!(
        h,
        "HTTP/1.1 200 OK\r\nContent-Type: multipart/x-mixed-replace; boundary=frame\r\n\r\n"
    );
}

#[test]
fn header_names_the_boundary_token() {
    let h = response_header();
    assert!(h.contains("boundary=frame"));
}

#[test]
fn decimal_zero() {
    assert_eq!(decimal_string(0), "0");
}

#[test]
fn decimal_single_digit() {
    assert_eq!(decimal_string(7), "7");
}

#[test]
fn decimal_two_digits() {
    assert_eq!(decimal_string(10), "10");
}

#[test]
fn decimal_many_digits() {
    assert_eq!(decimal_string(12345), "12345");
    assert_eq!(decimal_string(1000000), "1000000");
}

#[test]
fn decimal_largest() {
    assert_eq!(decimal_string(u64::MAX), "18446744073709551615");
}

#[test]
fn part_head_exact() {
    assert_eq!(
        part_head(3),
        "--frame\r\nContent-Type: image/jpeg\r\nContent-Length: 3\r\n\r\n"
    );
}

#[test]
fn part_head_empty_frame() {
    assert_eq!(
        part_head(0),
        "--frame\r\nContent-Type: image/jpeg\r\nContent-Length: 0\r\n\r\n"
    );
}

#[test]
fn part_boundary_matches_header_token() {
    let h = response_header();
    let head = part_head(1);
    let token = h.split("boundary=").nth(1).unwrap().trim_end();
    assert!(head.starts_with(&format!("--{}\r\n", token)));
}

#[test]
fn built_part_is_well_formed() {
    let bytes = vec![0xFFu8, 0xD8, 0xFF, 0xE0];
    let p = build_part(bytes.clone());
    assert_eq!(p.head, part_head(4));
    assert_eq!(p.body, bytes);
    assert_eq!(p.tail, "\r\n");
}

#[test]
fn part_head_has_exactly_one_blank_line_at_its_end() {
    let head = part_head(12345);
    assert_eq!(head.matches("\r\n\r\n").count(), 1);
    assert!(head.ends_with("\r\n\r\n"));
}

#[test]
fn content_length_announces_the_byte_count_that_follows() {
    let bytes = vec![9u8; 12345];
    let p = build_part(bytes);
    let len_line = p
        .head
        .lines()
        .find(|l| l.starts_with("Content-Length:"))
        .unwrap();
    let n: usize = len_line["Content-Length:".len()..].trim().parse().unwrap();
    assert_eq!(n, p.body.len());
}
