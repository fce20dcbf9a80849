//! Decoding single- and multi-frame transfers.

use isotp::TransportDecoder;

/// Test decoding a Single Frame message of length 7.
#[test]
fn test_transport_decoder_single1() {
    let frame = [
        0x07, // Type = 0 (Single), Size = 7
        0x99, 0xAA, 0xBB, 0xCC, 0xDD, 0xEE, 0xFF,
    ];

    let mut decoder = TransportDecoder::<8>::new();
    let size = decoder.update(&frame).unwrap().unwrap();

    assert_eq!(size, 7);
    assert!(decoder.ready());
    assert_eq!(
        decoder.data().unwrap(),
        &[0x99, 0xAA, 0xBB, 0xCC, 0xDD, 0xEE, 0xFF]
    );
}

/// Test decoding a Single Frame message of length 6.
#[test]
fn test_transport_decoder_single2() {
    let frame = [
        0x06, // Type = 0 (Single Frame), Size = 6
        0x99, 0xAA, 0xBB, 0xCC, 0xDD, 0xEE, 0xFF,
    ];

    let mut decoder = TransportDecoder::<8>::new();
    let size = decoder.update(&frame).unwrap().unwrap();

    assert_eq!(size, 6);
    assert!(decoder.ready());
    assert_eq!(decoder.data().unwrap(), &[0x99, 0xAA, 0xBB, 0xCC, 0xDD, 0xEE]);
}

/// Test decoding a Multiple Frame message of length 20.
#[test]
fn test_transport_decoder_multi1() {
    let frame1 = [
        0x10, // Type = 1 (First Frame)
        0x14, // Length = 20
        0x01, 0x02, 0x03, 0x04, 0x05, 0x06,
    ];
    let frame2 = [
        0x21, // Type = 2 (Consecutive Frame), Index = 1
        0x07, 0x08, 0x09, 0x0A, 0x0B, 0x0C, 0x0D,
    ];
    let frame3 = [
        0x22, // Type = 2 (Consecutive Frame), Index = 2
        0x0E, 0x0F, 0x10, 0x11, 0x12, 0x13, 0x14,
    ];

    let mut decoder = TransportDecoder::<20>::new();

    let result = decoder.update(&frame1).unwrap();
    assert!(result.is_none());
    assert!(!decoder.ready());

    let result = decoder.update(&frame2).unwrap();
    assert!(result.is_none());
    assert!(!decoder.ready());

    let result = decoder.update(&frame3).unwrap();
    assert_eq!(result, Some(20));
    assert!(decoder.ready());
    assert_eq!(
        decoder.data().unwrap(),
        &[1, 2, 3, 4, 5, 6, 7, 8, 9, 10, 11, 12, 13, 14, 15, 16, 17, 18, 19, 20]
    );
}
