use svt_av1::ivf::{encode_frame_count, encode_header, encode_record_header, parse_ivf, IvfHeader, IvfWriter};
use svt_av1::Error;

fn frames_of(data: &[u8]) -> Vec<(Vec<u8>, u64)> {
    let (_, frames) = parse_ivf(data).expect("valid stream");
    frames
        .iter()
        .map(|f| (f.payload(data).to_vec(), f.timestamp))
        .collect()
}

#[test]
fn write_three_frames_and_read_back() {
    let mut w = IvfWriter::new(320, 240, 30, 1);
    let a: Vec<u8> = (0u8..10).collect();
    let b: Vec<u8> = Vec::new();
    let c: Vec<u8> = vec![9, 8, 7, 6, 5];
    w.write_frame(&a, 0);
    w.write_frame(&b, 1);
    w.write_frame(&c, 2);
    assert_eq!(w.frame_count(), 3);
    let data = w.finish();
    assert_eq!(data.len(), 32 + 3 * 12 + 15);
    assert_eq!(&data[8..12], b"AV01");
    let (h, frames) = parse_ivf(&data).unwrap();
    assert_eq!(h.width, 320);
    assert_eq!(h.height, 240);
    assert_eq!(h.frame_rate, 30);
    assert_eq!(h.time_scale, 1);
    assert_eq!(h.frame_count, 3);
    assert_eq!(frames.len(), 3);
    assert_eq!(frames[0].size, 10);
    assert_eq!(frames[1].size, 0);
    assert_eq!(frames[2].size, 5);
    assert_eq!(frames_of(&data), vec![(a, 0), (b, 1), (c, 2)]);
}

#[test]
fn short_buffer_is_format_error() {
    for n in 0..32usize {
        let data = vec![0u8; n];
        assert!(matches!(parse_ivf(&data), Err(Error::Format)));
    }
    let mut w = IvfWriter::new(1, 1, 1, 1);
    w.write_frame(&[1, 2, 3], 7);
    let data = w.finish();
    assert!(matches!(parse_ivf(&data[..31]), Err(Error::Format)));
}

#[test]
fn reader_ignores_unpatched_frame_count() {
    let mut w = IvfWriter::new(64, 48, 25, 1);
    w.write_frame(&[1, 2, 3, 4], 100);
    w.write_frame(&[5], u64::MAX);
    let mut data = w.finish();
    data[24..28].copy_from_slice(&[0, 0, 0, 0]);
    let (h, _) = parse_ivf(&data).unwrap();
    assert_eq!(h.frame_count, 0);
    assert_eq!(frames_of(&data), vec![(vec![1, 2, 3, 4], 100), (vec![5], u64::MAX)]);
}

#[test]
fn bad_magic_or_fourcc_is_format_error() {
    let good = IvfWriter::new(2, 2, 1, 1).finish();
    assert!(parse_ivf(&good).is_ok());
    let mut bad_magic = good.clone();
    bad_magic[0] = b'X';
    assert!(matches!(parse_ivf(&bad_magic), Err(Error::Format)));
    let mut bad_fourcc = good.clone();
    bad_fourcc[11] = b'2';
    assert!(matches!(parse_ivf(&bad_fourcc), Err(Error::Format)));
}

#[test]
fn truncated_trailing_record_ends_stream() {
    let mut w = IvfWriter::new(2, 2, 1, 1);
    w.write_frame(&[1, 2], 0);
    w.write_frame(&[3, 4, 5, 6], 1);
    let data = w.finish();
    // Cut inside the second payload.
    let cut = &data[..data.len() - 1];
    assert_eq!(frames_of(cut), vec![(vec![1, 2], 0)]);
    // Cut inside the second record header.
    let cut = &data[..32 + 12 + 2 + 5];
    assert_eq!(frames_of(cut), vec![(vec![1, 2], 0)]);
    // Header alone.
    assert_eq!(frames_of(&data[..32]), vec![]);
}

#[test]
fn header_bytes_are_exact() {
    let h = IvfHeader { width: 0x0140, height: 0x00f0, frame_rate: 30, time_scale: 1, frame_count: 0x01020304 };
    let bytes = encode_header(&h);
    let expected: Vec<u8> = vec![
        b'D', b'K', b'I', b'F', 0, 0, 32, 0, b'A', b'V', b'0', b'1', 0x40, 0x01, 0xf0, 0x00, 30, 0, 0,
        0, 1, 0, 0, 0, 0x04, 0x03, 0x02, 0x01, 0, 0, 0, 0,
    ];
    assert_eq!(bytes, expected);
    let (back, frames) = parse_ivf(&bytes).unwrap();
    assert_eq!(back, h);
    assert!(frames.is_empty());
}

#[test]
fn record_header_bytes_are_exact() {
    assert_eq!(
        encode_record_header(0x0a0b0c0d, 0x0102030405060708),
        vec![0x0d, 0x0c, 0x0b, 0x0a, 8, 7, 6, 5, 4, 3, 2, 1]
    );
    assert_eq!(encode_frame_count(258), vec![2, 1, 0, 0]);
}

#[test]
fn finish_patches_frame_count() {
    let mut w = IvfWriter::new(2, 2, 1, 1);
    for i in 0..300u64 {
        w.write_frame(&[i as u8], i);
    }
    let data = w.finish();
    assert_eq!(&data[24..28], &[0x2c, 0x01, 0, 0]);
    let got = frames_of(&data);
    assert_eq!(got.len(), 300);
    for (i, (p, t)) in got.iter().enumerate() {
        assert_eq!(p, &vec![i as u8]);
        assert_eq!(*t, i as u64);
    }
}
