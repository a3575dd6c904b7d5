use can_gateway::dword::DoubleWord;
use can_gateway::otp::{OtpRegion, OtpWriteError, OTP_ADDRESS, OTP_LEN};

fn blank() -> OtpRegion {
    OtpRegion::new(vec![0xFF; OTP_LEN])
}

#[test]
fn write_to_erased_range_reads_back() {
    let mut otp = blank();
    let units = otp.write(&[1, 2, 3], 16).unwrap();
    assert_eq!(&otp.read()[16..19], &[1, 2, 3]);
    assert!(otp.read()[..16].iter().all(|b| *b == 0xFF));
    assert!(otp.read()[19..].iter().all(|b| *b == 0xFF));
    assert_eq!(units, vec![DoubleWord { address: OTP_ADDRESS + 16, low: 0xFF03_0201, high: 0xFFFF_FFFF }]);
}

#[test]
fn write_to_occupied_range_fails() {
    let mut otp = blank();
    otp.write(&[0x00], 10).unwrap();
    let before = otp.read().to_vec();
    assert_eq!(otp.write(&[1, 2, 3, 4], 8), Err(OtpWriteError::Occupied));
    assert_eq!(otp.read(), &before[..]);
    assert_eq!(otp.write(&[0xFF], 10), Err(OtpWriteError::Occupied));
    assert!(otp.write(&[5, 6], 11).is_ok());
}

#[test]
fn write_past_end_fails() {
    let mut otp = blank();
    assert_eq!(otp.write(&[0; 2], OTP_LEN - 1), Err(OtpWriteError::PayloadSize));
    assert_eq!(otp.write(&[0; 1], OTP_LEN), Err(OtpWriteError::PayloadSize));
    assert_eq!(otp.write(&[], usize::MAX), Err(OtpWriteError::PayloadSize));
    assert!(otp.read().iter().all(|b| *b == 0xFF));
    assert!(otp.write(&[0; 8], OTP_LEN - 8).is_ok());
}

#[test]
fn whole_window_write() {
    let mut otp = blank();
    let data: Vec<u8> = (0..OTP_LEN).map(|i| i as u8).collect();
    let units = otp.write(&data, 0).unwrap();
    assert_eq!(units.len(), OTP_LEN / 8);
    assert_eq!(otp.read(), &data[..]);
    assert_eq!(units[1], DoubleWord { address: OTP_ADDRESS + 8, low: 0x0B0A_0908, high: 0x0F0E_0D0C });
}
