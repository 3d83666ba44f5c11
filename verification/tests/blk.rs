use axvisor::blk::{
    buff_config, card_block_id, copy_read_words, finish_read, finish_write, map_host_error,
    mci_iomap_size, prepare_request, validate_buffer, BlockError, BuffConfig, BufferError,
    ErrorCause, HostError, BLOCK_SIZE, BUFFER_ALIGN, DEFAULT_MCI_REG_SIZE, OFFSET, REQUEST_ID,
};

#[test]
fn card_block_skips_offset() {
    assert_eq!(OFFSET / BLOCK_SIZE, 0x20000);
    assert_eq!(card_block_id(0), 0x20000);
    assert_eq!(card_block_id(5), 0x20005);
}

#[test]
fn validate_buffer_each_outcome() {
    assert_eq!(validate_buffer(512, 0, 0), Ok(()));
    assert_eq!(validate_buffer(4096, 0, 0), Ok(()));
    assert_eq!(
        validate_buffer(511, 0, 0),
        Err(BufferError::InvalidSize { expected: 512, actual: 511 })
    );
    assert_eq!(
        validate_buffer(0, 3, 1),
        Err(BufferError::InvalidSize { expected: 512, actual: 0 })
    );
    assert_eq!(validate_buffer(512, 1, 0), Err(BufferError::InvalidAlignment));
    assert_eq!(validate_buffer(513, 0, 1), Err(BufferError::InvalidAlignment));
}

#[test]
fn map_host_error_classes() {
    assert_eq!(map_host_error(HostError::Timeout), BlockError::Retry);
    assert_eq!(map_host_error(HostError::TransferFailed), BlockError::Retry);
    assert_eq!(map_host_error(HostError::StopTransmissionFailed), BlockError::Retry);
    assert_eq!(map_host_error(HostError::WaitWriteCompleteFailed), BlockError::Retry);
    assert_eq!(map_host_error(HostError::CardDetectFailed), BlockError::NotSupported);
    assert_eq!(map_host_error(HostError::CardInitFailed), BlockError::NotSupported);
    assert_eq!(map_host_error(HostError::InvalidVoltage), BlockError::NotSupported);
    assert_eq!(map_host_error(HostError::SwitchVoltageFail), BlockError::NotSupported);
    assert_eq!(
        map_host_error(HostError::SwitchVoltage18VFail33VSuccess),
        BlockError::NotSupported
    );
    assert_eq!(
        map_host_error(HostError::OutOfRange),
        BlockError::Other(ErrorCause::Host(HostError::OutOfRange))
    );
    assert_eq!(
        map_host_error(HostError::InvalidArgument),
        BlockError::Other(ErrorCause::Host(HostError::InvalidArgument))
    );
    assert_eq!(
        map_host_error(HostError::Busy),
        BlockError::Other(ErrorCause::Host(HostError::Busy))
    );
    assert_eq!(
        map_host_error(HostError::HostNotReady),
        BlockError::Other(ErrorCause::Host(HostError::HostNotReady))
    );
}

#[test]
fn prepare_request_outcomes() {
    assert_eq!(prepare_request(7, 512, 0, 0), Ok(0x20007));
    assert_eq!(
        prepare_request(7, 100, 0, 0),
        Err(BlockError::Other(ErrorCause::Buffer(BufferError::InvalidSize {
            expected: 512,
            actual: 100
        })))
    );
    assert_eq!(
        prepare_request(7, 1024, 2, 2),
        Err(BlockError::Other(ErrorCause::Buffer(BufferError::InvalidAlignment)))
    );
    // The card takes a 32-bit block number.
    assert_eq!(prepare_request(0xffff_ffff, 512, 0, 0), Ok(0x1ffff));
}

#[test]
fn copy_read_words_copies_common_prefix() {
    let mut dst = [0u32; 4];
    assert_eq!(copy_read_words(&mut dst, &[1, 2]), 2);
    assert_eq!(dst, [1, 2, 0, 0]);
    let mut dst = [9u32; 2];
    assert_eq!(copy_read_words(&mut dst, &[1, 2, 3]), 2);
    assert_eq!(dst, [1, 2]);
    let mut dst: [u32; 0] = [];
    assert_eq!(copy_read_words(&mut dst, &[1]), 0);
}

#[test]
fn finish_read_copies_on_success_only() {
    let mut dst = [7u32; 3];
    assert_eq!(finish_read(Ok(()), &mut dst, &[1, 2]), Ok(REQUEST_ID));
    assert_eq!(dst, [1, 2, 7]);
    let mut dst = [7u32; 3];
    assert_eq!(
        finish_read(Err(HostError::Timeout), &mut dst, &[1, 2]),
        Err(BlockError::Retry)
    );
    assert_eq!(dst, [7, 7, 7]);
}

#[test]
fn finish_write_outcomes() {
    assert_eq!(finish_write(Ok(())), Ok(0));
    assert_eq!(
        finish_write(Err(HostError::CardInitFailed)),
        Err(BlockError::NotSupported)
    );
    assert_eq!(
        finish_write(Err(HostError::ReadOnly)),
        Err(BlockError::Other(ErrorCause::Host(HostError::ReadOnly)))
    );
}

#[test]
fn buff_config_fixed_fields() {
    assert_eq!(
        buff_config(512),
        BuffConfig { dma_mask: u64::MAX, align: 0x1000, size: 512 }
    );
    assert_eq!(BUFFER_ALIGN, 0x1000);
}

#[test]
fn mci_iomap_size_defaults() {
    assert_eq!(mci_iomap_size(Some(0x1000)), 0x1000);
    assert_eq!(mci_iomap_size(None), DEFAULT_MCI_REG_SIZE);
    assert_eq!(mci_iomap_size(None), 0x10000);
}

#[test]
fn buffer_error_messages() {
    assert_eq!(
        BufferError::InvalidSize { expected: 512, actual: 3 }.message(),
        "Invalid buffer size: expected at least 512, got 3"
    );
    assert_eq!(
        BufferError::InvalidSize { expected: 512, actual: 0 }.message(),
        "Invalid buffer size: expected at least 512, got 0"
    );
    assert_eq!(
        BufferError::InvalidAlignment.message(),
        "Buffer is not properly aligned for u32 access"
    );
}

#[test]
fn host_error_messages() {
    assert_eq!(HostError::OutOfRange.message(), "MCI Host Error: OutOfRange");
    assert_eq!(HostError::Timeout.name(), "Timeout");
    assert_eq!(
        HostError::SwitchVoltage18VFail33VSuccess.message(),
        "MCI Host Error: SwitchVoltage18VFail33VSuccess"
    );
    assert_eq!(HostError::CardInitFailed.message(), "MCI Host Error: CardInitFailed");
    // The same text as the derived Debug form.
    assert_eq!(
        HostError::HandShakeOperationConditionFailed.message(),
        format!("MCI Host Error: {:?}", HostError::HandShakeOperationConditionFailed)
    );
}

#[test]
fn buff_config_buffer_passes_validation() {
    for block_size in [512usize, 1024, 4096] {
        let c = buff_config(block_size);
        // A page-aligned buffer of `size` bytes splits into whole words only.
        assert_eq!(c.align % 4, 0);
        assert_eq!(validate_buffer(c.size, 0, 0), Ok(()));
        assert_eq!(
            prepare_request(0, c.size, 0, 0),
            Ok(0x20000)
        );
    }
}
