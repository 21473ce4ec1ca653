use ethercat::devices::device_trait::DeviceError;
use ethercat::devices::el1xxx::{El1008Info, El1809Info, El1xxx};

#[test]
fn el1008_channel_truth_table() {
    let mut d = El1xxx::new::<El1008Info, 8, 1>(0, 0).unwrap();
    let e = d.process_data(&[0b1011_0100]).unwrap();
    // map [1,5,2,6,3,7,4,8]: raw bits 0,4,1,5,2,6,3,7
    assert_eq!(e.channels, vec![false, true, false, true, true, false, false, true]);
    assert!(e.output.is_none());
}

#[test]
fn el1809_reads_two_bytes_in_order() {
    let mut d = El1xxx::new::<El1809Info, 16, 2>(4, 0).unwrap();
    let e = d.process_data(&[0b0000_0001, 0b1000_0000]).unwrap();
    let mut expected = vec![false; 16];
    expected[0] = true;
    expected[15] = true;
    assert_eq!(e.channels, expected);
}

#[test]
fn length_mismatch_fails_and_sets_flag_once() {
    let mut d = El1xxx::new::<El1008Info, 8, 1>(2, 0).unwrap();
    assert!(!d.in_error());
    assert_eq!(
        d.process_data(&[0, 0]).err(),
        Some(DeviceError::LengthMismatch { expected: 1, actual: 2 })
    );
    assert!(d.in_error());
    assert!(d.process_data(&[]).is_err());
    assert!(d.in_error());
    assert!(d.process_data(&[0xFF]).is_ok());
    assert!(!d.in_error());
}

#[test]
fn channel_map_outside_frame_is_refused() {
    assert_eq!(
        El1xxx::with_map("x", &[1, 9], 1, 0).err(),
        Some(DeviceError::ConfigurationError)
    );
    assert_eq!(
        El1xxx::with_map("x", &[0], 1, 0).err(),
        Some(DeviceError::ConfigurationError)
    );
    let mut d = El1xxx::with_map("x", &[8, 8, 1], 1, 0).unwrap();
    assert_eq!(d.process_data(&[0x80]).unwrap().channels, vec![true, true, false]);
}

#[test]
fn digital_io_names() {
    let d = El1xxx::new::<El1008Info, 8, 1>(3, 0).unwrap();
    assert_eq!(d.channel_count(), 8);
    assert_eq!(d.channel_name(0), "el1008_s3_in1");
    assert_eq!(d.channel_name(1), "el1008_s3_in5");
    assert_eq!(d.channel_name(7), "el1008_s3_in8");
    let e = El1xxx::new::<El1809Info, 16, 2>(12, 0).unwrap();
    assert_eq!(e.channel_name(15), "el1809_s12_in16");
}
