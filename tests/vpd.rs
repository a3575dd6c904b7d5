use can_gateway::vpd::{Chunk, Serial, Sku, SkuId, Version, VitalProductData};

fn chunk(tag: &[u8; 4], body: &[u8]) -> Chunk {
    Chunk { tag: *tag, body: body.to_vec(), checksum_ok: true }
}

fn default_record() -> VitalProductData {
    VitalProductData {
        serial: Serial::new(99, 99, 0x9999),
        hardware: Version::new(0, 0, 0, 0),
        sku: Sku::Unknown(0),
    }
}

#[test]
fn empty_data_gives_defaults() {
    assert_eq!(VitalProductData::from_tlvc(&[]), default_record());
    assert_eq!(VitalProductData::default(), default_record());
    assert_eq!(Serial::default(), Serial::new(99, 99, 0x9999));
    assert_eq!(Version::default(), Version::new(0, 0, 0, 0));
}

#[test]
fn valid_chunks_are_decoded() {
    let chunks = [
        chunk(b"SER ", &[24, 12, 0x3F, 0x0A]),
        chunk(b"HW  ", &[1, 2, 3, 4]),
        chunk(b"SKU ", &[2]),
        chunk(b"XYZ ", &[9, 9]),
    ];
    let vpd = VitalProductData::from_tlvc(&chunks);
    assert_eq!(vpd.serial, Serial::new(24, 12, 0x0A3F));
    assert_eq!(vpd.hardware, Version::new(1, 2, 3, 4));
    assert_eq!(vpd.sku, Sku::Known(SkuId::MiniPCIe));
}

#[test]
fn corrupt_chunk_falls_back_to_default() {
    let mut bad = chunk(b"SER ", &[24, 12, 0x3F, 0x0A]);
    bad.checksum_ok = false;
    let chunks = [chunk(b"SER ", &[1, 1, 1, 1]), bad, chunk(b"HW  ", &[1, 0, 0, 0])];
    let vpd = VitalProductData::from_tlvc(&chunks);
    assert_eq!(vpd.serial, Serial::new(99, 99, 0x9999));
    assert_eq!(vpd.hardware, Version::new(1, 0, 0, 0));
}

#[test]
fn wrong_length_chunk_falls_back_to_default() {
    let chunks = [chunk(b"HW  ", &[1, 2, 3]), chunk(b"SKU ", &[1, 2])];
    assert_eq!(VitalProductData::from_tlvc(&chunks), default_record());
}

#[test]
fn later_chunk_wins() {
    let chunks = [chunk(b"SKU ", &[1]), chunk(b"SKU ", &[7])];
    assert_eq!(VitalProductData::from_tlvc(&chunks).sku, Sku::Unknown(7));
}

#[test]
fn serial_and_sku_decoding() {
    assert_eq!(Serial::from_bytes(&[1, 2, 0x34, 0x12]), Serial::new(1, 2, 0x1234));
    assert_eq!(Version::from_bytes(&[3, 2, 1, 0]), Version::new(3, 2, 1, 0));
    assert_eq!(SkuId::try_from(1), Ok(SkuId::M2KeyE));
    assert_eq!(SkuId::try_from(3), Err(3));
    assert_eq!(SkuId::MiniPCIe.code(), 2);
    assert_eq!(Sku::from(1), Sku::Known(SkuId::M2KeyE));
    assert_eq!(Sku::from(0), Sku::Unknown(0));
}

#[test]
fn serial_formatting() {
    assert_eq!(Serial::new(24, 12, 0x0A3F).format(), b"2412-0A3F".to_vec());
    assert_eq!(Serial::new(5, 7, 0x00b1).format(), b"0507-00B1".to_vec());
    assert_eq!(Serial::default().format(), b"9999-9999".to_vec());
    assert_eq!(Serial::new(200, 0, 0xFFFF).format(), b"20000-FFFF".to_vec());
}

#[test]
fn version_formatting() {
    assert_eq!(Version::new(1, 2, 3, 0).format(), b"1.2.3".to_vec());
    assert_eq!(Version::new(10, 0, 255, 4).format(), b"10.0.255-rc.4".to_vec());
    assert_eq!(Version::default().format(), b"0.0.0".to_vec());
}
