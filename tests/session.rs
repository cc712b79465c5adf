use svt_av1::decoder::{Decoder, PictureStatus};
use svt_av1::encoder::{packet_item, Encoder, Handle};
use svt_av1::error::{ERROR_BAD_PARAMETER, NO_ERROR_EMPTY_QUEUE};
use svt_av1::session::Phase;
use svt_av1::{ok, Error};

const COMPONENT: usize = 0x1000;

fn running_encoder() -> Encoder {
    let mut enc = Encoder::new();
    enc.init_default(0, COMPONENT).unwrap();
    enc.set_parameter(0).unwrap();
    enc.init(0).unwrap();
    enc
}

#[test]
fn test_decoder_init() {
    let mut dec = Decoder::new();
    dec.init_default(0, COMPONENT).expect("Failed to init decoder");
    dec.init(0).expect("Failed to init decoder instance");
    assert_eq!(dec.phase(), Phase::Running);
}

#[test]
fn ok_maps_status() {
    assert!(ok(0).is_ok());
    assert_eq!(ok(-5), Err(Error::Code(-5)));
    assert_eq!(ok(NO_ERROR_EMPTY_QUEUE), Err(Error::Code(NO_ERROR_EMPTY_QUEUE)));
}

#[test]
fn encoder_lifecycle() {
    let mut enc = Encoder::new();
    assert_eq!(enc.phase(), Phase::Uninitialized);
    assert!(enc.init_default(0, COMPONENT).is_ok());
    assert_eq!(enc.phase(), Phase::HandleOpen);
    assert_eq!(enc.as_ptr(), COMPONENT);
    assert_eq!(enc.set_parameter(7), Err(Error::Parameter(7)));
    assert_eq!(enc.phase(), Phase::HandleOpen);
    assert!(enc.set_parameter(0).is_ok());
    assert_eq!(enc.phase(), Phase::Configured);
    assert!(enc.set_parameter(0).is_ok());
    assert!(enc.init(0).is_ok());
    assert_eq!(enc.phase(), Phase::Running);
    assert!(!enc.end_of_input());
    assert_eq!(enc.send_picture(3), Err(Error::Send(3)));
    assert!(enc.send_picture(0).is_ok());
    assert_eq!(enc.send_eos(4), Err(Error::Send(4)));
    assert_eq!(enc.phase(), Phase::Running);
    assert!(enc.send_eos(0).is_ok());
    assert_eq!(enc.phase(), Phase::Draining);
    assert!(enc.end_of_input());
    assert_eq!(enc.close(), Some(COMPONENT));
    assert_eq!(enc.phase(), Phase::Closed);
}

#[test]
fn failed_open_and_init() {
    let mut enc = Encoder::new();
    assert_eq!(enc.init_default(-9, 0), Err(Error::Init(-9)));
    assert_eq!(enc.phase(), Phase::Failed);
    assert_eq!(enc.close(), None);
    assert_eq!(enc.close(), None);

    let mut enc = Encoder::new();
    assert_eq!(enc.init_default(0, 0), Ok(()));
    assert_eq!(enc.phase(), Phase::HandleOpen);
    assert_eq!(enc.as_ptr(), 0);
    assert_eq!(enc.close(), None);

    let mut dec = Decoder::new();
    assert_eq!(dec.init_default(0, 0), Ok(()));
    assert_eq!(dec.phase(), Phase::HandleOpen);
    assert_eq!(dec.close(), None);

    let mut enc = Encoder::new();
    enc.init_default(0, COMPONENT).unwrap();
    assert_eq!(enc.init(-2), Err(Error::Init(-2)));
    assert_eq!(enc.phase(), Phase::Failed);
    assert_eq!(enc.close(), Some(COMPONENT));
    assert_eq!(enc.close(), None);
}

#[test]
fn teardown_twice_releases_once() {
    let mut enc = running_encoder();
    assert_eq!(enc.close(), Some(COMPONENT));
    assert_eq!(enc.as_ptr(), 0);
    assert_eq!(enc.close(), None);

    let mut dec = Decoder::new();
    dec.init_default(0, COMPONENT).unwrap();
    assert_eq!(dec.close(), Some(COMPONENT));
    assert_eq!(dec.close(), None);

    let mut h = Handle::new();
    assert!(h.is_null());
    *h.as_mut_ptr() = 0x20;
    assert_eq!(h.as_ptr(), 0x20);
    assert_eq!(h.release(), Some(0x20));
    assert!(h.is_null());
    assert_eq!(h.release(), None);
}

#[test]
fn get_packet_maps_status() {
    let mut enc = running_encoder();
    let p = enc.get_packet(false, 0, 0x40).unwrap().unwrap();
    assert_eq!(p.as_ptr(), 0x40);
    assert_eq!(enc.outstanding(), 1);
    assert!(matches!(enc.get_packet(false, NO_ERROR_EMPTY_QUEUE, 0), Ok(None)));
    assert!(matches!(enc.get_packet(false, -3, 0), Err(Error::Receive(-3))));
    assert_eq!(enc.outstanding(), 1);
    let q = enc.get_packet(false, 0, 0).unwrap().unwrap();
    assert_eq!(q.as_ptr(), 0);
    assert_eq!(enc.outstanding(), 2);
    assert_eq!(enc.release(p), 0x40);
    assert_eq!(enc.release(q), 0);
    assert_eq!(enc.outstanding(), 0);
}

#[test]
fn stream_header_and_recon() {
    let mut enc = running_encoder();
    let h = enc.get_stream_header(0, 0x80).unwrap();
    assert_eq!(h.as_ptr(), 0x80);
    assert_eq!(enc.stream_header_release(h, 0), Ok(()));
    let h = enc.get_stream_header(0, 0x84).unwrap();
    assert_eq!(enc.stream_header_release(h, -7), Err(Error::Code(-7)));
    let h = enc.get_stream_header(0, 0).unwrap();
    assert_eq!(h.as_ptr(), 0);
    assert_eq!(enc.stream_header_release(h, 0), Ok(()));
    assert!(matches!(enc.get_stream_header(-1, 0x80), Err(Error::Receive(-1))));
    assert_eq!(enc.get_recon(0), Ok(true));
    assert_eq!(enc.get_recon(NO_ERROR_EMPTY_QUEUE), Ok(false));
    assert_eq!(enc.get_recon(-6), Err(Error::Receive(-6)));
}

#[test]
fn packet_item_transposes() {
    let mut enc = running_encoder();
    let polled = enc.get_packet(false, 0, 0x44);
    match packet_item(polled) {
        Some(Ok(p)) => assert_eq!(enc.release(p), 0x44),
        _ => panic!("expected a packet"),
    }
    assert!(packet_item(enc.get_packet(false, NO_ERROR_EMPTY_QUEUE, 0)).is_none());
    match packet_item(enc.get_packet(false, 0, 0)) {
        Some(Ok(p)) => assert_eq!(enc.release(p), 0),
        _ => panic!("a zero status hands out a packet"),
    }
    assert!(matches!(packet_item(enc.get_packet(false, -8, 0)), Some(Err(Error::Receive(-8)))));
}

#[test]
fn parameter_strings() {
    assert_eq!(Encoder::check_parameter_str("rc", "vbr"), Ok(()));
    assert_eq!(Encoder::check_parameter_str("r\0c", "vbr"), Err(Error::Parameter(ERROR_BAD_PARAMETER)));
    assert_eq!(Encoder::check_parameter_str("rc", "vbr\0"), Err(Error::Parameter(ERROR_BAD_PARAMETER)));
    assert_eq!(ERROR_BAD_PARAMETER, 0x80001005u32 as i32);
    assert_eq!(Encoder::parse_parameter(0), Ok(()));
    assert_eq!(Encoder::parse_parameter(-1), Err(Error::Parameter(-1)));
}

#[test]
fn decoder_exchange() {
    let mut dec = Decoder::new();
    dec.init_default(0, COMPONENT).unwrap();
    dec.set_parameter(0).unwrap();
    dec.init(0).unwrap();
    assert!(dec.send_packet(0).is_ok());
    assert_eq!(dec.send_packet(12), Err(Error::Send(12)));
    assert_eq!(dec.get_picture(0), Ok(PictureStatus::Present));
    assert_eq!(dec.get_picture(NO_ERROR_EMPTY_QUEUE), Ok(PictureStatus::Empty));
    assert_eq!(dec.get_picture(-4), Err(Error::Receive(-4)));
    assert_eq!(dec.phase(), Phase::Running);
}
