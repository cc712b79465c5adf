use svt_av1::encoder::Encoder;
use svt_av1::error::NO_ERROR_EMPTY_QUEUE;
use svt_av1::loopback::{drain_packets, LoopbackEncoder};
use svt_av1::roi::{PrivData, RoiMap, RoiMapEvent, ROI_MAP_EVENT};

fn running_encoder() -> Encoder {
    let mut enc = Encoder::new();
    enc.init_default(0, 0x1000).unwrap();
    enc.set_parameter(0).unwrap();
    enc.init(0).unwrap();
    enc
}

#[test]
fn send_drain_eos_drain_returns_everything() {
    let mut enc = running_encoder();
    let mut comp = LoopbackEncoder::new(2);
    let mut got = Vec::new();
    for _ in 0..5 {
        assert_eq!(enc.send_picture(comp.send_picture()), Ok(()));
        got.extend(drain_packets(&mut enc, &mut comp, false).unwrap());
    }
    assert_eq!(got, vec![1, 2, 3]);
    assert_eq!(enc.send_eos(comp.send_eos()), Ok(()));
    assert!(enc.end_of_input());
    got.extend(drain_packets(&mut enc, &mut comp, true).unwrap());
    assert_eq!(got, vec![1, 2, 3, 4, 5]);
    assert_eq!(comp.get_packet(true), (NO_ERROR_EMPTY_QUEUE, 0));
    assert_eq!(comp.outstanding(), 0);
    assert_eq!(enc.outstanding(), 0);
}

#[test]
fn polling_after_eos_converges() {
    let mut enc = running_encoder();
    let mut comp = LoopbackEncoder::new(10);
    for _ in 0..4 {
        enc.send_picture(comp.send_picture()).unwrap();
    }
    assert_eq!(drain_packets(&mut enc, &mut comp, false).unwrap(), Vec::<usize>::new());
    enc.send_eos(comp.send_eos()).unwrap();
    let mut seen = Vec::new();
    let mut polls = 0;
    loop {
        polls += 1;
        let (code, ptr) = comp.get_packet(enc.end_of_input());
        match enc.get_packet(true, code, ptr).unwrap() {
            Some(p) => {
                seen.push(p.as_ptr());
                let addr = enc.release(p);
                assert!(comp.release(addr));
            }
            None => break,
        }
    }
    assert_eq!(polls, 5);
    assert_eq!(seen, vec![1, 2, 3, 4]);
    for _ in 0..3 {
        assert!(matches!(enc.get_packet(true, comp.get_packet(true).0, 0), Ok(None)));
    }
}

#[test]
fn drain_leaves_packets_in_use_untouched() {
    let mut enc = running_encoder();
    let mut comp = LoopbackEncoder::new(0);
    for _ in 0..3 {
        enc.send_picture(comp.send_picture()).unwrap();
    }
    let (code, held) = comp.get_packet(false);
    let kept = enc.get_packet(false, code, held).unwrap().unwrap();
    assert_eq!(kept.as_ptr(), 1);
    assert_eq!(drain_packets(&mut enc, &mut comp, false).unwrap(), vec![2, 3]);
    assert_eq!(comp.outstanding(), 1);
    assert_eq!(enc.outstanding(), 1);
    let addr = enc.release(kept);
    assert!(comp.release(addr));
    assert_eq!(comp.outstanding(), 0);
}

#[test]
fn release_tracking_refuses_second_release() {
    let mut comp = LoopbackEncoder::new(0);
    comp.send_picture();
    let (code, addr) = comp.get_packet(false);
    assert_eq!((code, addr), (0, 1));
    assert_eq!(comp.outstanding(), 1);
    assert!(comp.release(addr));
    assert!(!comp.release(addr));
    assert!(!comp.release(99));
    assert_eq!(comp.outstanding(), 0);
}

#[test]
fn roi_event_reads_max_segment() {
    let mut qp = [0i16; 8];
    qp[0] = -4;
    let e = RoiMapEvent::new(3, vec![0, 5, 2, 5, 1], qp);
    assert_eq!(e.max_seg_id, 5);
    assert_eq!(e.start_picture_number, 3);
    assert_eq!(e.seg_qp[0], -4);
    assert_eq!(RoiMapEvent::new(0, vec![], qp).max_seg_id, 0);
    let mut map = RoiMap::new();
    map.push(e);
    assert_eq!(map.evt_num(), 1);
    assert_eq!(PrivData::RoiMap(map).node_type(), ROI_MAP_EVENT);
    assert_eq!(ROI_MAP_EVENT, 2);
}
