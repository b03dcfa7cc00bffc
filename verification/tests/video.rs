use gcs_afv::video::{
    decode_units, latest_frame, length_prefixes_fit, nal_packets, process_nal_data, rgb_frame,
    H264Decoder,
};

#[test]
fn packets_are_rewritten_and_split() {
    let data = vec![0, 0, 0, 2, 0x67, 0x42, 0, 0, 0, 1, 0x68];
    let units = nal_packets(&data);
    assert_eq!(units, vec![vec![0, 0, 1, 0x67, 0x42], vec![0, 0, 1, 0x68]]);
    // A length that overruns the packet ends the rewriting.
    let data = vec![0, 0, 0, 2, 0x67, 0x42, 0, 0, 0, 9, 0x68];
    assert_eq!(nal_packets(&data), vec![vec![0, 0, 1, 0x67, 0x42]]);
    assert!(nal_packets(&vec![]).is_empty());
}

#[test]
fn frames_need_three_bytes_per_pixel() {
    let f = rgb_frame(2, 1, vec![1, 2, 3, 4, 5, 6]).unwrap();
    assert_eq!((f.width, f.height), (2, 1));
    assert!(rgb_frame(2, 2, vec![1, 2, 3, 4, 5, 6]).is_none());
    assert!(rgb_frame(0, 5, vec![]).is_some());
    assert!(rgb_frame(0, 5, vec![1]).is_none());
}

#[test]
fn garbage_decodes_to_nothing() {
    let mut d = H264Decoder::new().unwrap();
    assert!(decode_units(&vec![], &mut d).is_none());
    assert!(process_nal_data(vec![0, 0, 0, 1, 0x09], &mut d).is_none());
}

#[test]
fn latest_fitting_frame_wins() {
    assert!(latest_frame(vec![]).is_none());
    assert!(latest_frame(vec![None, Some((2, 2, vec![1]))]).is_none());
    let img = latest_frame(vec![
        Some((1, 1, vec![1, 2, 3])),
        Some((2, 1, vec![4, 5, 6, 7, 8, 9])),
        None,
        Some((3, 3, vec![0])),
    ])
    .unwrap();
    assert_eq!((img.width, img.height), (2, 1));
    assert_eq!(img.data, vec![4, 5, 6, 7, 8, 9]);
}

#[test]
fn units_split_before_the_two_zeros() {
    // The first unit ends in a zero: the stream reads 0 0 1 67 0 0 0 1 68.
    let data = vec![0, 0, 0, 2, 0x67, 0, 0, 0, 0, 1, 0x68];
    assert_eq!(nal_packets(&data), vec![vec![0, 0, 1, 0x67, 0], vec![0, 0, 1, 0x68]]);
}

#[test]
fn prefixes_fit_on_this_target() {
    assert!(length_prefixes_fit(&vec![0xff, 0xff, 0xff, 0xff, 1]));
    assert!(length_prefixes_fit(&vec![0, 0, 0, 1, 7, 0, 0, 0]));
    assert!(length_prefixes_fit(&vec![]));
}
