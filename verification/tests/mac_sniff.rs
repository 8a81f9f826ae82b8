use charizhard::mac::{frame_source_mac, mac2str, mac_valid_exec, sniff_on_frame, sniff_run,
    SniffCell};

fn frame_with_src(src: [u8; 6]) -> Vec<u8> {
    let mut f = vec![0xffu8; 6];
    f.extend_from_slice(&src);
    f.extend_from_slice(&[0x08, 0x00, 0xde, 0xad]);
    f
}

#[test]
fn mac2str_formats_hex_pairs() {
    assert_eq!(mac2str([0xaa, 0xbb, 0xcc, 0xdd, 0xee, 0xff]), "aa:bb:cc:dd:ee:ff");
    assert_eq!(mac2str([0x02, 0xaa, 0xbb, 0xcc, 0x12, 0x34]), "02:aa:bb:cc:12:34");
    assert_eq!(mac2str([0, 0, 0, 0, 0, 0]), "00:00:00:00:00:00");
}

#[test]
fn source_mac_is_bytes_six_to_eleven() {
    let f = frame_with_src([0x02, 0x11, 0x22, 0x33, 0x44, 0x55]);
    assert_eq!(frame_source_mac(&f), [0x02, 0x11, 0x22, 0x33, 0x44, 0x55]);
}

#[test]
fn mac_validity() {
    assert!(mac_valid_exec(&[0xaa, 0xbb, 0xcc, 0xdd, 0xee, 0xff]));
    assert!(mac_valid_exec(&[0x02, 0x00, 0x00, 0x00, 0x00, 0x01]));
    // group bit set: multicast, no client address
    assert!(!mac_valid_exec(&[0x01, 0x00, 0x5e, 0x00, 0x00, 0x01]));
    // broadcast is multicast too
    assert!(!mac_valid_exec(&[0xff, 0xff, 0xff, 0xff, 0xff, 0xff]));
    assert!(!mac_valid_exec(&[0, 0, 0, 0, 0, 0]));
}

#[test]
fn sniff_cell_first_offer_wins() {
    let mut cell = SniffCell::new();
    assert!(cell.get().is_none());
    assert!(cell.offer([0xaa, 0xbb, 0xcc, 0xdd, 0xee, 0xff]));
    assert_eq!(cell.get(), Some([0xaa, 0xbb, 0xcc, 0xdd, 0xee, 0xff]));
    // every later offer loses and changes nothing
    assert!(!cell.offer([0x02, 0x00, 0x00, 0x00, 0x00, 0x01]));
    assert_eq!(cell.get(), Some([0xaa, 0xbb, 0xcc, 0xdd, 0xee, 0xff]));
}

#[test]
fn sniff_callback_keeps_first_frame_only() {
    let mut cell = SniffCell::new();
    sniff_on_frame(&mut cell, &frame_with_src([0x02, 1, 2, 3, 4, 5]));
    sniff_on_frame(&mut cell, &frame_with_src([0x02, 9, 9, 9, 9, 9]));
    assert_eq!(cell.get(), Some([0x02, 1, 2, 3, 4, 5]));
}

#[test]
fn sniff_run_resolves_to_first_of_many() {
    let mut cell = SniffCell::new();
    let frames = vec![
        frame_with_src([0xaa, 0xbb, 0xcc, 0xdd, 0xee, 0xff]),
        frame_with_src([0x02, 1, 1, 1, 1, 1]),
        frame_with_src([0x02, 2, 2, 2, 2, 2]),
    ];
    sniff_run(&mut cell, &frames);
    assert_eq!(cell.get(), Some([0xaa, 0xbb, 0xcc, 0xdd, 0xee, 0xff]));
}

#[test]
fn sniff_run_without_frames_stays_empty() {
    let mut cell = SniffCell::new();
    let frames: Vec<Vec<u8>> = Vec::new();
    sniff_run(&mut cell, &frames);
    assert!(cell.get().is_none());
}
