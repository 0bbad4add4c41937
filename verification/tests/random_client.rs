use guest_vm::net::{ConnectError, IpAddr, IpCidr};
use guest_vm::random::{
    generate, generate_in, generate_u128, generate_u16, generate_u32, generate_u64, generate_u8,
    request_plan, MAX_REQUEST_LEN,
};

#[test]
fn request_plans_chunk_at_the_boundary() {
    assert_eq!(request_plan(0), Vec::<u16>::new());
    assert_eq!(request_plan(1), vec![1]);
    assert_eq!(request_plan(65534), vec![65534]);
    assert_eq!(request_plan(65535), vec![65535]);
    assert_eq!(request_plan(65536), vec![65535, 1]);
    assert_eq!(request_plan(200000), vec![65535, 65535, 65535, 3395]);
    assert_eq!(MAX_REQUEST_LEN, 65535);
}

#[test]
fn responses_fill_the_buffer_in_order() {
    let mut out = vec![0u8; 5];
    let chunks = vec![vec![1, 2, 3, 4, 5]];
    assert_eq!(generate_in(&mut out, &chunks), Ok(()));
    assert_eq!(out, vec![1, 2, 3, 4, 5]);
}

#[test]
fn long_buffers_take_one_response_per_request() {
    let mut out = vec![0u8; 65536];
    let chunks = vec![vec![7u8; 65535], vec![9u8]];
    assert_eq!(generate_in(&mut out, &chunks), Ok(()));
    assert_eq!(out.len(), 65536);
    assert!(out[..65535].iter().all(|b| *b == 7));
    assert_eq!(out[65535], 9);
}

#[test]
fn mismatched_responses_are_rejected_untouched() {
    let mut out = vec![3u8; 4];

    // Wrong number of responses.
    let chunks = vec![vec![1, 2], vec![3, 4]];
    assert_eq!(generate_in(&mut out, &chunks), Err(()));
    assert_eq!(out, vec![3, 3, 3, 3]);

    // Right count, wrong size.
    let chunks = vec![vec![1, 2, 3]];
    assert_eq!(generate_in(&mut out, &chunks), Err(()));
    assert_eq!(out, vec![3, 3, 3, 3]);

    // A response for an empty buffer.
    let mut empty = Vec::new();
    let chunks = vec![vec![1]];
    assert_eq!(generate_in(&mut empty, &chunks), Err(()));
    assert_eq!(empty, Vec::<u8>::new());
}

#[test]
fn generate_allocates_and_fills() {
    let chunks = vec![vec![9, 8, 7, 6]];
    assert_eq!(generate(4, &chunks), Ok(vec![9, 8, 7, 6]));
    assert_eq!(generate(3, &chunks), Err(()));
    assert_eq!(generate(0, &Vec::new()), Ok(Vec::new()));
}

#[test]
fn integers_decode_little_endian() {
    assert_eq!(generate_u8(&[0xab]), 0xab);
    assert_eq!(generate_u16(&[0x34, 0x12]), 0x1234);
    assert_eq!(generate_u32(&[0x78, 0x56, 0x34, 0x12]), 0x12345678);
    assert_eq!(
        generate_u64(&[0xf0, 0xde, 0xbc, 0x9a, 0x78, 0x56, 0x34, 0x12]),
        0x123456789abcdef0
    );
    let bytes = [
        0x10, 0x32, 0x54, 0x76, 0x98, 0xba, 0xdc, 0xfe, 0xf0, 0xde, 0xbc, 0x9a, 0x78, 0x56,
        0x34, 0x12,
    ];
    assert_eq!(generate_u128(&bytes), 0x123456789abcdef0fedcba9876543210);
}

#[test]
fn connect_error_reports_no_route() {
    let err = ConnectError::NoRoute;
    assert_eq!(err, ConnectError::NoRoute);
    assert_eq!(err.message(), "No route available for this destination");
}

#[test]
fn cidr_prefixes_are_bounded_by_the_address_kind() {
    let v4 = IpAddr::V4([192, 168, 0, 1]);
    let v6 = IpAddr::V6([0; 16]);
    let block = IpCidr::new(v4, 24).unwrap();
    assert_eq!(block.address(), v4);
    assert_eq!(block.prefix_len(), 24);
    assert!(IpCidr::new(v4, 32).is_ok());
    assert_eq!(IpCidr::new(v4, 33), Err(()));
    assert!(IpCidr::new(v6, 64).is_ok());
    assert_eq!(IpCidr::new(v6, 65), Err(()));
}
