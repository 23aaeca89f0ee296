use txkit::terminal::encode_for_terminal;
use txkit::terminal::frame_for_terminal;
use txkit::terminal::CHUNK_SIZE;

fn reference(encoded: &[u8]) -> Vec<u8> {
    let chunks = encoded.chunks(4096).collect::<Vec<_>>();
    let mut out = Vec::new();
    for (i, chunk) in chunks.iter().enumerate() {
        let last = if i == chunks.len() - 1 { b"0" } else { b"1" };
        match i {
            0 => out.extend_from_slice(b"\x1B_Gf=100,a=T,m="),
            _ => out.extend_from_slice(b"\x1B_Gm="),
        }
        out.extend_from_slice(last);
        out.extend_from_slice(b";");
        out.extend_from_slice(chunk);
        out.extend_from_slice(b"\x1B\\");
    }
    out.extend_from_slice(b"\n");
    out
}

#[test]
fn nothing_is_sent_as_a_line_feed() {
    assert_eq!(frame_for_terminal(&[]), b"\n".to_vec());
}

#[test]
fn a_short_picture_takes_one_escape_sequence() {
    assert_eq!(frame_for_terminal(b"QUJD"), b"\x1B_Gf=100,a=T,m=0;QUJD\x1B\\\n".to_vec());
}

#[test]
fn a_long_picture_is_cut_into_chunks() {
    assert_eq!(CHUNK_SIZE, 4096);
    for length in [1usize, 4095, 4096, 4097, 8191, 8192, 8193, 20000] {
        let encoded: Vec<u8> = (0..length).map(|i| b'A' + (i % 26) as u8).collect();
        assert_eq!(frame_for_terminal(&encoded), reference(&encoded), "length {}", length);
    }
    let encoded = vec![b'x'; 4097];
    let framed = frame_for_terminal(&encoded);
    assert!(framed.starts_with(b"\x1B_Gf=100,a=T,m=1;xxx"));
    assert!(framed.ends_with(b"x\x1B\\\x1B_Gm=0;x\x1B\\\n"));
}

#[test]
fn a_picture_is_encoded_before_it_is_cut() {
    assert_eq!(encode_for_terminal(b"hello"), b"\x1B_Gf=100,a=T,m=0;aGVsbG8=\x1B\\\n".to_vec());
    assert_eq!(encode_for_terminal(b""), b"\n".to_vec());
    assert_eq!(
        encode_for_terminal(&[0xffu8, 0xfe, 0xfd]),
        b"\x1B_Gf=100,a=T,m=0;//79\x1B\\\n".to_vec()
    );
    let picture = vec![0u8; 4000];
    let sent = encode_for_terminal(&picture);
    // 5336 bytes of encoding in two chunks
    assert_eq!(sent.len(), 15 + 2 + 4096 + 2 + 5 + 2 + (5336 - 4096) + 2 + 1);
}
