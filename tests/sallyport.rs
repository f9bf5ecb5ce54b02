use snp_launch::sallyport::{
    host_complete, host_complete_read, host_execute, host_payload, validate_slice, Handler,
    HostCall, SallyError, HEADER_SIZE, PTR_AT, RET_AT,
};

/// A host whose one file is `file`: carries out the request in `block`.
fn serve(block: &mut Vec<u8>, file: &mut Vec<u8>) -> HostCall {
    let call = host_execute(block);
    match call {
        HostCall::Read { ptr, len, .. } => {
            let n = len.min(file.len());
            let data: Vec<u8> = file[..n].to_vec();
            host_complete_read(block, ptr, &data);
        }
        HostCall::Write { ptr, len, .. } => {
            let data = host_payload(block, ptr, len);
            file.extend_from_slice(&data);
            host_complete(block, len as i64);
        }
        HostCall::Close { .. } => host_complete(block, 0),
        _ => {}
    }
    call
}

fn block() -> Vec<u8> {
    vec![0xff; 128]
}

#[test]
fn close() {
    for capable in [true, false] {
        let mut file = Vec::new();
        let mut handler = Handler::new(block(), capable);
        for _ in 0..3 {
            let r = handler.request_close(4);
            if capable {
                assert_eq!(r, Ok(()));
                assert_eq!(serve(&mut handler.block, &mut file), HostCall::Close { fd: 4 });
                assert_eq!(handler.close_response(), Ok(()));
            } else {
                assert_eq!(r, Err(SallyError::NotSupported));
                assert_eq!(handler.block, block());
            }
        }
    }
}

#[test]
fn read() {
    const EXPECTED: &str = "read";
    for capable in [true, false] {
        let mut file = EXPECTED.as_bytes().to_vec();
        let mut handler = Handler::new(block(), capable);
        for _ in 0..3 {
            let mut buf = [0u8; EXPECTED.len()];
            let r = handler.request_read(3, buf.len());
            if capable {
                assert_eq!(r, Ok(()));
                serve(&mut handler.block, &mut file);
                let got = handler.read_response().unwrap();
                assert_eq!(got.len(), EXPECTED.len());
                buf.copy_from_slice(&got);
                assert_eq!(&buf, EXPECTED.as_bytes());
            } else {
                assert_eq!(r, Err(SallyError::NotSupported));
            }
        }
    }
}

#[test]
fn write() {
    const EXPECTED: &str = "write";
    for capable in [true, false] {
        let mut file = Vec::new();
        let mut handler = Handler::new(block(), capable);
        for _ in 0..3 {
            file.clear();
            let r = handler.request_write(5, EXPECTED.as_bytes());
            if capable {
                assert_eq!(r, Ok(()));
                serve(&mut handler.block, &mut file);
                assert_eq!(handler.write_response(), Ok(EXPECTED.len()));
                assert_eq!(file, EXPECTED.as_bytes());
            } else {
                assert_eq!(r, Err(SallyError::NotSupported));
                assert_eq!(handler.block, block());
                assert!(file.is_empty());
            }
        }
    }
}

#[test]
fn read_is_capped_by_the_payload() {
    let mut file = vec![7u8; 500];
    let mut handler = Handler::new(block(), true);
    handler.request_read(1, 1000).unwrap();
    serve(&mut handler.block, &mut file);
    assert_eq!(handler.read_response().unwrap().len(), 128 - HEADER_SIZE);
}

#[test]
fn response_pointing_outside_is_a_violation() {
    let mut file = b"read".to_vec();
    let mut handler = Handler::new(block(), true);
    handler.request_read(3, 4).unwrap();
    serve(&mut handler.block, &mut file);
    // The host claims its data lies in the header.
    handler.block[PTR_AT..PTR_AT + 8].copy_from_slice(&8u64.to_le_bytes());
    assert_eq!(handler.read_response(), Err(SallyError::ProtocolViolation));

    handler.request_read(3, 4).unwrap();
    serve(&mut handler.block, &mut file);
    // The host claims data beyond the end of the block.
    handler.block[PTR_AT..PTR_AT + 8].copy_from_slice(&126u64.to_le_bytes());
    assert_eq!(handler.read_response(), Err(SallyError::ProtocolViolation));
}

#[test]
fn response_claiming_more_than_asked_is_a_violation() {
    let mut file = b"read".to_vec();
    let mut handler = Handler::new(block(), true);
    handler.request_read(3, 2).unwrap();
    serve(&mut handler.block, &mut file);
    handler.block[RET_AT..RET_AT + 8].copy_from_slice(&4u64.to_le_bytes());
    assert_eq!(handler.read_response(), Err(SallyError::ProtocolViolation));
}

#[test]
fn response_without_request() {
    let mut handler = Handler::new(block(), true);
    assert_eq!(handler.read_response(), Err(SallyError::NoRequest));
    handler.request_close(1).unwrap();
    assert_eq!(handler.write_response(), Err(SallyError::NoRequest));
    // The close request is still outstanding, but unanswered.
    assert_eq!(handler.close_response(), Err(SallyError::ProtocolViolation));
}

#[test]
fn host_errors_reach_the_guest() {
    let mut handler = Handler::new(block(), true);
    handler.request_write(2, b"x").unwrap();
    host_execute(&mut handler.block);
    host_complete(&mut handler.block, -9);
    assert_eq!(handler.write_response(), Err(SallyError::Errno(9)));
}

#[test]
fn unknown_operation_not_supported() {
    let mut handler = Handler::new(block(), true);
    handler.request_close(1).unwrap();
    handler.block[8..16].copy_from_slice(&999u64.to_le_bytes());
    assert_eq!(host_execute(&mut handler.block), HostCall::Unsupported);
    assert_eq!(handler.block.len(), 128);
    handler.block[8..16].copy_from_slice(&3u64.to_le_bytes());
    assert_eq!(handler.close_response(), Err(SallyError::NotSupported));
}

#[test]
fn host_refuses_request_outside_payload() {
    let mut handler = Handler::new(block(), true);
    handler.request_read(1, 4).unwrap();
    handler.block[PTR_AT..PTR_AT + 8].copy_from_slice(&0u64.to_le_bytes());
    assert_eq!(host_execute(&mut handler.block), HostCall::Fault);
    assert_eq!(handler.read_response(), Err(SallyError::Errno(14)));
}

#[test]
fn idle_block_left_alone() {
    let mut b = block();
    b[0..8].copy_from_slice(&0u64.to_le_bytes());
    let before = b.clone();
    assert_eq!(host_execute(&mut b), HostCall::Idle);
    assert_eq!(b, before);
}

#[test]
fn slice_validation() {
    assert_eq!(validate_slice(48, 80, 128), Ok((48, 80)));
    assert_eq!(validate_slice(47, 1, 128), Err(SallyError::ProtocolViolation));
    assert_eq!(validate_slice(48, 81, 128), Err(SallyError::ProtocolViolation));
    assert_eq!(validate_slice(u64::MAX, 2, 128), Err(SallyError::ProtocolViolation));
}
