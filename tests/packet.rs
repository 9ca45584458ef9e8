use wol_service::packet::is_wol_packet;

fn payload(mac: [u8; 6]) -> Vec<u8> {
    let mut p = vec![0xffu8; 6];
    for _ in 0..16 {
        p.extend_from_slice(&mac);
    }
    p
}

#[test]
fn empty_buffer_is_rejected() {
    assert!(!is_wol_packet(&[]));
}

#[test]
fn short_buffers_are_rejected() {
    let full = payload([0xaa, 0xbb, 0xcc, 0xdd, 0xee, 0xff]);
    for len in 0..102 {
        assert!(!is_wol_packet(&full[102 - len..]));
    }
    assert!(!is_wol_packet(&vec![0xffu8; 101]));
}

#[test]
fn exact_payload_is_accepted_for_any_mac() {
    let macs = [
        [0xaa, 0xbb, 0xcc, 0xdd, 0xee, 0xff],
        [0, 0, 0, 0, 0, 0],
        [0xff, 0xff, 0xff, 0xff, 0xff, 0xff],
        [1, 2, 3, 4, 5, 6],
    ];
    for mac in macs {
        let p = payload(mac);
        assert_eq!(p.len(), 102);
        assert!(is_wol_packet(&p));
    }
}

#[test]
fn altered_copy_is_rejected() {
    let mac = [0xaa, 0xbb, 0xcc, 0xdd, 0xee, 0xff];
    for k in 0..16 {
        let mut p = payload(mac);
        p[6 + 6 * k + 3] ^= 0x01;
        assert!(!is_wol_packet(&p), "copy {} altered", k);
    }
}

#[test]
fn broken_sync_stream_is_rejected() {
    let mut p = payload([1, 2, 3, 4, 5, 6]);
    p[2] = 0xfe;
    assert!(!is_wol_packet(&p));
}

#[test]
fn leading_bytes_do_not_matter() {
    let p = payload([0x10, 0x20, 0x30, 0x40, 0x50, 0x60]);
    for pad in [vec![], vec![0u8; 1], vec![0x42u8; 14], vec![0xffu8; 40]] {
        let mut f = pad.clone();
        f.extend_from_slice(&p);
        assert!(is_wol_packet(&f));
    }
    let mut bad = payload([0x10, 0x20, 0x30, 0x40, 0x50, 0x60]);
    bad[50] = 0;
    let mut f = vec![0xffu8; 20];
    f.extend_from_slice(&bad);
    assert!(!is_wol_packet(&f));
}

#[test]
fn payload_not_at_the_end_is_rejected() {
    let mut f = payload([1, 2, 3, 4, 5, 6]);
    f.extend_from_slice(&[0u8; 4]);
    assert!(!is_wol_packet(&f));
}

#[test]
fn frame_with_six_junk_bytes_is_accepted() {
    let mut f = vec![0x01u8, 0x02, 0x03, 0x04, 0x05, 0x06];
    f.extend_from_slice(&payload([0xaa, 0xbb, 0xcc, 0xdd, 0xee, 0xff]));
    assert_eq!(f.len(), 108);
    assert!(is_wol_packet(&f));
}
