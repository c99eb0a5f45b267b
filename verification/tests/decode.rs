use sor4_splitter::utf16::decode_utf16_buffer;

fn wide_with_nul(s: &str) -> Vec<u16> {
    let mut v: Vec<u16> = s.encode_utf16().collect();
    v.push(0);
    v
}

#[test]
fn decode_reads_up_to_the_first_nul() {
    let mut buf = wide_with_nul("Hi");
    // junk after the terminator, as a fixed-capacity read would leave
    buf.extend_from_slice(&[0x4A, 0x4B, 0, 0x4C]);
    assert_eq!(decode_utf16_buffer(&buf), "Hi");
}

#[test]
fn decode_of_a_level_name() {
    let buf = wide_with_nul("stage1_1");
    assert_eq!(decode_utf16_buffer(&buf), "stage1_1");
}

#[test]
fn decode_keeps_non_ascii_text() {
    let buf = wide_with_nul("étage β");
    assert_eq!(decode_utf16_buffer(&buf), "étage β");
}

#[test]
fn decode_of_a_leading_nul_is_empty() {
    let buf = vec![0u16, 0x48, 0x49];
    assert_eq!(decode_utf16_buffer(&buf), "");
}

#[test]
fn decode_without_a_terminator_is_empty() {
    let buf: Vec<u16> = "Hi".encode_utf16().collect();
    assert_eq!(decode_utf16_buffer(&buf), "");
}

#[test]
fn decode_of_ill_formed_utf16_is_empty() {
    // an unpaired high surrogate before the terminator
    let buf = vec![0xD800u16, 0];
    assert_eq!(decode_utf16_buffer(&buf), "");
}

#[test]
fn decode_of_an_empty_buffer_is_empty() {
    let buf: Vec<u16> = Vec::new();
    assert_eq!(decode_utf16_buffer(&buf), "");
}
