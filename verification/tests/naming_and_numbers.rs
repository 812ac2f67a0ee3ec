use screen_share::decimal::{parse_usize, usize_to_str};
use screen_share::naming::{
    c_string_len, dll_shared_memory_name, injector_shared_memory_name, push_decimal,
};

#[test]
fn usize_to_str_writes_digits_at_the_end() {
    let mut buf = [0u8; 20];
    assert_eq!(usize_to_str(140_733_193_388_032, &mut buf), b"140733193388032");
    let mut buf = [0u8; 20];
    assert_eq!(usize_to_str(7, &mut buf), b"7");
}

#[test]
fn usize_to_str_fills_only_the_tail_of_the_buffer() {
    let mut buf = [0u8; 20];
    let text = usize_to_str(12345, &mut buf).to_vec();
    assert_eq!(text, b"12345");
    assert_eq!(&buf[15..], b"12345");
    assert_eq!(buf[..15], [0u8; 15]);
    let mut buf = [b'x'; 20];
    usize_to_str(907, &mut buf);
    assert_eq!(&buf[17..], b"907");
    assert_eq!(buf[..17], [b'x'; 17]);
}

#[test]
fn usize_to_str_of_zero_is_empty() {
    let mut buf = [0u8; 20];
    assert_eq!(usize_to_str(0, &mut buf), b"");
}

#[test]
fn usize_to_str_of_max() {
    let mut buf = [0u8; 20];
    let text = usize_to_str(usize::MAX, &mut buf);
    assert_eq!(text, usize::MAX.to_string().as_bytes());
}

#[test]
fn parse_usize_accepts_digits_and_plus() {
    assert_eq!(parse_usize(b"140733193388032"), Some(140_733_193_388_032));
    assert_eq!(parse_usize(b"+42"), Some(42));
    assert_eq!(parse_usize(b"0"), Some(0));
    assert_eq!(parse_usize(b"007"), Some(7));
}

#[test]
fn parse_usize_rejects_bad_text() {
    assert_eq!(parse_usize(b""), None);
    assert_eq!(parse_usize(b"+"), None);
    assert_eq!(parse_usize(b"-1"), None);
    assert_eq!(parse_usize(b"12a"), None);
    assert_eq!(parse_usize(b" 12"), None);
    assert_eq!(parse_usize(b"99999999999999999999999"), None);
}

#[test]
fn parse_usize_rejects_overflow_by_one() {
    let max = usize::MAX.to_string();
    assert_eq!(parse_usize(max.as_bytes()), Some(usize::MAX));
    let mut over = max.into_bytes();
    let last = over.len() - 1;
    over[last] += 1;
    assert_eq!(parse_usize(&over), None);
}

#[test]
fn printed_address_parses_back() {
    for n in [1usize, 9, 10, 4096, 140_733_193_388_032, usize::MAX] {
        let mut buf = [0u8; 20];
        let text = usize_to_str(n, &mut buf).to_vec();
        assert_eq!(parse_usize(&text), Some(n));
    }
}

#[test]
fn push_decimal_appends() {
    let mut out = b"pid=".to_vec();
    push_decimal(&mut out, 0);
    assert_eq!(out, b"pid=0");
    push_decimal(&mut out, 305);
    assert_eq!(out, b"pid=0305");
}

#[test]
fn injector_name_is_prefix_pid_and_nul() {
    assert_eq!(injector_shared_memory_name(1234), b"SylvScreenShare1234\0");
    assert_eq!(injector_shared_memory_name(0), b"SylvScreenShare0\0");
    assert_eq!(injector_shared_memory_name(u32::MAX), b"SylvScreenShare4294967295\0");
}

#[test]
fn dll_name_buffer_is_zero_padded() {
    let buf = dll_shared_memory_name(1234);
    assert_eq!(&buf[..19], b"SylvScreenShare1234");
    assert!(buf[19..].iter().all(|b| *b == 0));
    let full = dll_shared_memory_name(u32::MAX);
    assert_eq!(&full[..25], b"SylvScreenShare4294967295");
    assert_eq!(full[25], 0);
}

#[test]
fn dll_and_injector_names_agree() {
    for pid in [0u32, 4, 1234, 65_535, u32::MAX] {
        let injector = injector_shared_memory_name(pid);
        let dll = dll_shared_memory_name(pid);
        let a = c_string_len(&injector).unwrap();
        let b = c_string_len(&dll).unwrap();
        assert_eq!(&injector[..a], &dll[..b]);
        let expected = format!("SylvScreenShare{}", pid);
        assert_eq!(&dll[..b], expected.as_bytes());
    }
}

#[test]
fn distinct_pids_give_distinct_names() {
    assert_ne!(injector_shared_memory_name(12), injector_shared_memory_name(120));
    assert_ne!(injector_shared_memory_name(1), injector_shared_memory_name(10));
}

#[test]
fn c_string_len_finds_first_nul() {
    assert_eq!(c_string_len(b"ab\0cd\0"), Some(2));
    assert_eq!(c_string_len(b"\0"), Some(0));
    assert_eq!(c_string_len(b"abc"), None);
    assert_eq!(c_string_len(b""), None);
}

