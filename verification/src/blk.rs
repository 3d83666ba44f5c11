//! The request path of the Phytium SD card block driver: where a request
//! lands on the card, which buffers it accepts, how host controller errors
//! become block errors, and how read data reaches the caller's buffer.
//!
//! The card itself (register access, the transfer) is driven outside this
//! module; its outcome comes back here as a plain `Result`.
use vstd::prelude::*;
use vstd::string::*;

use crate::text::{append_decimal, decimal};

verus! {

/// Byte offset on the card at which the block device starts.
pub const OFFSET: usize = 0x400_0000;

/// Size in bytes of one block.
pub const BLOCK_SIZE: usize = 512;

/// Buffer alignment announced to the block layer.
pub const BUFFER_ALIGN: usize = 0x1000;

/// Register window size used for the controller when the device tree gives
/// none.
pub const DEFAULT_MCI_REG_SIZE: usize = 0x10000;

/// Size of the I/O pad register window.
pub const IOPAD_REG_SIZE: usize = 0x2000;

/// The request identifier that every request completes with.
pub const REQUEST_ID: usize = 0;

/// Blocks skipped at the start of the card (`OFFSET / BLOCK_SIZE`).
pub open spec fn block_offset() -> nat {
    0x20000
}

/// Why a buffer was refused.
#[derive(PartialEq, Eq, Structural, Clone, Copy, Debug)]
pub enum BufferError {
    /// Shorter than one block.
    InvalidSize { expected: usize, actual: usize },
    /// Not made of whole, aligned 32-bit words.
    InvalidAlignment,
}

impl BufferError {
    /// The text that describes the error.
    pub open spec fn message_spec(self) -> Seq<char> {
        match self {
            BufferError::InvalidSize { expected, actual } => "Invalid buffer size: expected at least "@
                + decimal(expected as nat) + ", got "@ + decimal(actual as nat),
            BufferError::InvalidAlignment => "Buffer is not properly aligned for u32 access"@,
        }
    }

    /// The text that describes the error.
    pub fn message(&self) -> (m: String)
        ensures
            m@ == self.message_spec(),
    {
        match self {
            BufferError::InvalidSize { expected, actual } => {
                let mut m = String::from_str("Invalid buffer size: expected at least ");
                append_decimal(&mut m, *expected as u64);
                m.append(", got ");
                append_decimal(&mut m, *actual as u64);
                m
            },
            BufferError::InvalidAlignment => String::from_str(
                "Buffer is not properly aligned for u32 access",
            ),
        }
    }
}

/// Errors of the SD host controller, one for one with those of the
/// controller driver.
#[derive(PartialEq, Eq, Structural, Clone, Copy, Debug)]
pub enum HostError {
    Fail,
    ReadOnly,
    OutOfRange,
    InvalidArgument,
    Timeout,
    NoTransferInProgress,
    Busy,
    NoData,
    NotSupportYet,
    TransferFailed,
    SetCardBlockSizeFailed,
    HostNotSupport,
    CardNotSupport,
    AllSendCidFailed,
    SendRelativeAddressFailed,
    SendCsdFailed,
    SelectCardFailed,
    SendScrFailed,
    SetDataBusWidthFailed,
    GoIdleFailed,
    HandShakeOperationConditionFailed,
    SendApplicationCommandFailed,
    SwitchFailed,
    StopTransmissionFailed,
    WaitWriteCompleteFailed,
    SetBlockCountFailed,
    SetRelativeAddressFailed,
    SwitchBusTimingFailed,
    SendExtendedCsdFailed,
    ConfigureBootFailed,
    ConfigureExtendedCsdFailed,
    EnableHighCapacityEraseFailed,
    SendTestPatternFailed,
    ReceiveTestPatternFailed,
    SdioResponseError,
    SdioInvalidArgument,
    SdioSendOperationConditionFail,
    InvalidVoltage,
    SdioSwitchHighSpeedFail,
    SdioReadCISFail,
    SdioInvalidCard,
    TuningFail,
    SwitchVoltageFail,
    SwitchVoltage18VFail33VSuccess,
    ReTuningRequest,
    SetDriverStrengthFail,
    SetPowerClassFail,
    HostNotReady,
    CardDetectFailed,
    AuSizeNotSetProperly,
    PollingCardIdleFailed,
    DeselectCardFailed,
    CardStatusIdle,
    CardStatusBusy,
    CardInitFailed,
}

impl HostError {
    /// The name of the error.
    pub open spec fn name_spec(self) -> Seq<char> {
        match self {
            HostError::Fail => "Fail"@,
            HostError::ReadOnly => "ReadOnly"@,
            HostError::OutOfRange => "OutOfRange"@,
            HostError::InvalidArgument => "InvalidArgument"@,
            HostError::Timeout => "Timeout"@,
            HostError::NoTransferInProgress => "NoTransferInProgress"@,
            HostError::Busy => "Busy"@,
            HostError::NoData => "NoData"@,
            HostError::NotSupportYet => "NotSupportYet"@,
            HostError::TransferFailed => "TransferFailed"@,
            HostError::SetCardBlockSizeFailed => "SetCardBlockSizeFailed"@,
            HostError::HostNotSupport => "HostNotSupport"@,
            HostError::CardNotSupport => "CardNotSupport"@,
            HostError::AllSendCidFailed => "AllSendCidFailed"@,
            HostError::SendRelativeAddressFailed => "SendRelativeAddressFailed"@,
            HostError::SendCsdFailed => "SendCsdFailed"@,
            HostError::SelectCardFailed => "SelectCardFailed"@,
            HostError::SendScrFailed => "SendScrFailed"@,
            HostError::SetDataBusWidthFailed => "SetDataBusWidthFailed"@,
            HostError::GoIdleFailed => "GoIdleFailed"@,
            HostError::HandShakeOperationConditionFailed => "HandShakeOperationConditionFailed"@,
            HostError::SendApplicationCommandFailed => "SendApplicationCommandFailed"@,
            HostError::SwitchFailed => "SwitchFailed"@,
            HostError::StopTransmissionFailed => "StopTransmissionFailed"@,
            HostError::WaitWriteCompleteFailed => "WaitWriteCompleteFailed"@,
            HostError::SetBlockCountFailed => "SetBlockCountFailed"@,
            HostError::SetRelativeAddressFailed => "SetRelativeAddressFailed"@,
            HostError::SwitchBusTimingFailed => "SwitchBusTimingFailed"@,
            HostError::SendExtendedCsdFailed => "SendExtendedCsdFailed"@,
            HostError::ConfigureBootFailed => "ConfigureBootFailed"@,
            HostError::ConfigureExtendedCsdFailed => "ConfigureExtendedCsdFailed"@,
            HostError::EnableHighCapacityEraseFailed => "EnableHighCapacityEraseFailed"@,
            HostError::SendTestPatternFailed => "SendTestPatternFailed"@,
            HostError::ReceiveTestPatternFailed => "ReceiveTestPatternFailed"@,
            HostError::SdioResponseError => "SdioResponseError"@,
            HostError::SdioInvalidArgument => "SdioInvalidArgument"@,
            HostError::SdioSendOperationConditionFail => "SdioSendOperationConditionFail"@,
            HostError::InvalidVoltage => "InvalidVoltage"@,
            HostError::SdioSwitchHighSpeedFail => "SdioSwitchHighSpeedFail"@,
            HostError::SdioReadCISFail => "SdioReadCISFail"@,
            HostError::SdioInvalidCard => "SdioInvalidCard"@,
            HostError::TuningFail => "TuningFail"@,
            HostError::SwitchVoltageFail => "SwitchVoltageFail"@,
            HostError::SwitchVoltage18VFail33VSuccess => "SwitchVoltage18VFail33VSuccess"@,
            HostError::ReTuningRequest => "ReTuningRequest"@,
            HostError::SetDriverStrengthFail => "SetDriverStrengthFail"@,
            HostError::SetPowerClassFail => "SetPowerClassFail"@,
            HostError::HostNotReady => "HostNotReady"@,
            HostError::CardDetectFailed => "CardDetectFailed"@,
            HostError::AuSizeNotSetProperly => "AuSizeNotSetProperly"@,
            HostError::PollingCardIdleFailed => "PollingCardIdleFailed"@,
            HostError::DeselectCardFailed => "DeselectCardFailed"@,
            HostError::CardStatusIdle => "CardStatusIdle"@,
            HostError::CardStatusBusy => "CardStatusBusy"@,
            HostError::CardInitFailed => "CardInitFailed"@,
        }
    }

    /// The name of the error.
    pub fn name(&self) -> (name: &'static str)
        ensures
            name@ == self.name_spec(),
    {
        match self {
            HostError::Fail => "Fail",
            HostError::ReadOnly => "ReadOnly",
            HostError::OutOfRange => "OutOfRange",
            HostError::InvalidArgument => "InvalidArgument",
            HostError::Timeout => "Timeout",
            HostError::NoTransferInProgress => "NoTransferInProgress",
            HostError::Busy => "Busy",
            HostError::NoData => "NoData",
            HostError::NotSupportYet => "NotSupportYet",
            HostError::TransferFailed => "TransferFailed",
            HostError::SetCardBlockSizeFailed => "SetCardBlockSizeFailed",
            HostError::HostNotSupport => "HostNotSupport",
            HostError::CardNotSupport => "CardNotSupport",
            HostError::AllSendCidFailed => "AllSendCidFailed",
            HostError::SendRelativeAddressFailed => "SendRelativeAddressFailed",
            HostError::SendCsdFailed => "SendCsdFailed",
            HostError::SelectCardFailed => "SelectCardFailed",
            HostError::SendScrFailed => "SendScrFailed",
            HostError::SetDataBusWidthFailed => "SetDataBusWidthFailed",
            HostError::GoIdleFailed => "GoIdleFailed",
            HostError::HandShakeOperationConditionFailed => "HandShakeOperationConditionFailed",
            HostError::SendApplicationCommandFailed => "SendApplicationCommandFailed",
            HostError::SwitchFailed => "SwitchFailed",
            HostError::StopTransmissionFailed => "StopTransmissionFailed",
            HostError::WaitWriteCompleteFailed => "WaitWriteCompleteFailed",
            HostError::SetBlockCountFailed => "SetBlockCountFailed",
            HostError::SetRelativeAddressFailed => "SetRelativeAddressFailed",
            HostError::SwitchBusTimingFailed => "SwitchBusTimingFailed",
            HostError::SendExtendedCsdFailed => "SendExtendedCsdFailed",
            HostError::ConfigureBootFailed => "ConfigureBootFailed",
            HostError::ConfigureExtendedCsdFailed => "ConfigureExtendedCsdFailed",
            HostError::EnableHighCapacityEraseFailed => "EnableHighCapacityEraseFailed",
            HostError::SendTestPatternFailed => "SendTestPatternFailed",
            HostError::ReceiveTestPatternFailed => "ReceiveTestPatternFailed",
            HostError::SdioResponseError => "SdioResponseError",
            HostError::SdioInvalidArgument => "SdioInvalidArgument",
            HostError::SdioSendOperationConditionFail => "SdioSendOperationConditionFail",
            HostError::InvalidVoltage => "InvalidVoltage",
            HostError::SdioSwitchHighSpeedFail => "SdioSwitchHighSpeedFail",
            HostError::SdioReadCISFail => "SdioReadCISFail",
            HostError::SdioInvalidCard => "SdioInvalidCard",
            HostError::TuningFail => "TuningFail",
            HostError::SwitchVoltageFail => "SwitchVoltageFail",
            HostError::SwitchVoltage18VFail33VSuccess => "SwitchVoltage18VFail33VSuccess",
            HostError::ReTuningRequest => "ReTuningRequest",
            HostError::SetDriverStrengthFail => "SetDriverStrengthFail",
            HostError::SetPowerClassFail => "SetPowerClassFail",
            HostError::HostNotReady => "HostNotReady",
            HostError::CardDetectFailed => "CardDetectFailed",
            HostError::AuSizeNotSetProperly => "AuSizeNotSetProperly",
            HostError::PollingCardIdleFailed => "PollingCardIdleFailed",
            HostError::DeselectCardFailed => "DeselectCardFailed",
            HostError::CardStatusIdle => "CardStatusIdle",
            HostError::CardStatusBusy => "CardStatusBusy",
            HostError::CardInitFailed => "CardInitFailed",
        }
    }

    /// The text that describes the error.
    pub open spec fn message_spec(self) -> Seq<char> {
        "MCI Host Error: "@ + self.name_spec()
    }

    /// The text that describes the error.
    pub fn message(&self) -> (m: String)
        ensures
            m@ == self.message_spec(),
    {
        let mut m = String::from_str("MCI Host Error: ");
        m.append(self.name());
        m
    }
}

/// What caused an error that the block layer has no kind for.
#[derive(PartialEq, Eq, Structural, Clone, Copy, Debug)]
pub enum ErrorCause {
    Buffer(BufferError),
    Host(HostError),
}

/// Errors reported to the block layer.
#[derive(PartialEq, Eq, Structural, Clone, Copy, Debug)]
pub enum BlockError {
    /// The operation cannot be done on this card.
    NotSupported,
    /// The operation may succeed if tried again.
    Retry,
    /// Any other failure, with its cause.
    Other(ErrorCause),
}

/// Buffer requirements announced to the block layer.
#[derive(PartialEq, Eq, Structural, Clone, Copy, Debug)]
pub struct BuffConfig {
    pub dma_mask: u64,
    pub align: usize,
    pub size: usize,
}

/// The block layer's view of a host controller error.
pub open spec fn block_error_of(err: HostError) -> BlockError {
    match err {
        HostError::Timeout => BlockError::Retry,
        HostError::CardDetectFailed | HostError::CardInitFailed => BlockError::NotSupported,
        HostError::InvalidVoltage | HostError::SwitchVoltageFail
        | HostError::SwitchVoltage18VFail33VSuccess => BlockError::NotSupported,
        HostError::TransferFailed | HostError::StopTransmissionFailed
        | HostError::WaitWriteCompleteFailed => BlockError::Retry,
        _ => BlockError::Other(ErrorCause::Host(err)),
    }
}

/// The verdict on a buffer of `len` bytes that splits into `prefix_len`
/// bytes before its first aligned 32-bit word and `suffix_len` bytes after
/// its last one.
pub open spec fn buffer_check(len: usize, prefix_len: usize, suffix_len: usize) -> Result<
    (),
    BufferError,
> {
    if len < BLOCK_SIZE {
        Err(BufferError::InvalidSize { expected: BLOCK_SIZE, actual: len })
    } else if prefix_len != 0 || suffix_len != 0 {
        Err(BufferError::InvalidAlignment)
    } else {
        Ok(())
    }
}

/// The card block that block `block_id` of the device is stored in.
pub fn card_block_id(block_id: usize) -> (card_block: usize)
    requires
        block_id + block_offset() <= usize::MAX,
    ensures
        card_block == block_id + block_offset(),
{
    block_id + OFFSET / BLOCK_SIZE
}

/// Accepts a buffer that holds at least one block and is made of whole,
/// aligned 32-bit words.
pub fn validate_buffer(len: usize, prefix_len: usize, suffix_len: usize) -> (r: Result<
    (),
    BufferError,
>)
    ensures
        r == buffer_check(len, prefix_len, suffix_len),
{
    if len < BLOCK_SIZE {
        return Err(BufferError::InvalidSize { expected: BLOCK_SIZE, actual: len });
    }
    if prefix_len != 0 || suffix_len != 0 {
        return Err(BufferError::InvalidAlignment);
    }
    Ok(())
}

/// Maps a host controller error to the error reported to the block layer:
/// timeouts and transfer failures may be retried, card detection,
/// initialisation and voltage failures mean the card is not supported, and
/// every other error is passed on as its cause.
pub fn map_host_error(err: HostError) -> (r: BlockError)
    ensures
        r == block_error_of(err),
{
    match err {
        HostError::Timeout => BlockError::Retry,
        HostError::OutOfRange | HostError::InvalidArgument => BlockError::Other(
            ErrorCause::Host(err),
        ),
        HostError::CardDetectFailed | HostError::CardInitFailed => BlockError::NotSupported,
        HostError::InvalidVoltage | HostError::SwitchVoltageFail
        | HostError::SwitchVoltage18VFail33VSuccess => BlockError::NotSupported,
        HostError::TransferFailed | HostError::StopTransmissionFailed
        | HostError::WaitWriteCompleteFailed => BlockError::Retry,
        _ => BlockError::Other(ErrorCause::Host(err)),
    }
}

/// Checks a request before it goes to the card and gives the card block it
/// starts at (the low 32 bits of the card block number).
pub fn prepare_request(block_id: usize, len: usize, prefix_len: usize, suffix_len: usize) -> (r:
    Result<u32, BlockError>)
    requires
        block_id + block_offset() <= usize::MAX,
    ensures
        r is Ok <==> buffer_check(len, prefix_len, suffix_len) is Ok,
        r matches Ok(start) ==> start == (block_id + block_offset()) as u32,
        buffer_check(len, prefix_len, suffix_len) matches Err(e) ==> r == Err::<u32, BlockError>(
            BlockError::Other(ErrorCause::Buffer(e)),
        ),
{
    let card_block = card_block_id(block_id);
    match validate_buffer(len, prefix_len, suffix_len) {
        Ok(()) => Ok(card_block as u32),
        Err(e) => Err(BlockError::Other(ErrorCause::Buffer(e))),
    }
}

/// Copies the words that were read into the caller's buffer, as many as both
/// hold, and returns how many were copied.
pub fn copy_read_words(dst: &mut [u32], data: &[u32]) -> (copied: usize)
    ensures
        copied == if old(dst)@.len() < data@.len() {
            old(dst)@.len()
        } else {
            data@.len()
        },
        final(dst)@.len() == old(dst)@.len(),
        forall|i: int| 0 <= i < copied ==> final(dst)@[i] == data@[i],
        forall|i: int| copied <= i < old(dst)@.len() ==> final(dst)@[i] == old(dst)@[i],
{
    let n = if dst.len() < data.len() {
        dst.len()
    } else {
        data.len()
    };
    let mut i: usize = 0;
    while i < n
        invariant
            n <= dst@.len(),
            n <= data@.len(),
            n == if old(dst)@.len() < data@.len() {
                old(dst)@.len()
            } else {
                data@.len()
            },
            i <= n,
            dst@.len() == old(dst)@.len(),
            forall|j: int| 0 <= j < i ==> dst@[j] == data@[j],
            forall|j: int| i <= j < dst@.len() ==> dst@[j] == old(dst)@[j],
        decreases n - i,
    {
        dst[i] = data[i];
        i = i + 1;
    }
    n
}

/// Completes a read: on success the data read from the card is copied into
/// the caller's buffer and the request identifier is returned; on failure
/// the buffer is left as it was and the mapped error is returned.
pub fn finish_read(outcome: Result<(), HostError>, dst: &mut [u32], data: &[u32]) -> (r: Result<
    usize,
    BlockError,
>)
    ensures
        outcome matches Err(e) ==> r == Err::<usize, BlockError>(block_error_of(e))
            && final(dst)@ == old(dst)@,
        outcome is Ok ==> r == Ok::<usize, BlockError>(REQUEST_ID) && final(dst)@.len() == old(
            dst,
        )@.len() && (forall|i: int|
            0 <= i < old(dst)@.len() ==> final(dst)@[i] == if i < data@.len() {
                data@[i]
            } else {
                old(dst)@[i]
            }),
{
    match outcome {
        Err(e) => Err(map_host_error(e)),
        Ok(()) => {
            copy_read_words(dst, data);
            Ok(REQUEST_ID)
        },
    }
}

/// Completes a write: the request identifier on success, the mapped error
/// otherwise.
pub fn finish_write(outcome: Result<(), HostError>) -> (r: Result<usize, BlockError>)
    ensures
        outcome matches Err(e) ==> r == Err::<usize, BlockError>(block_error_of(e)),
        outcome is Ok ==> r == Ok::<usize, BlockError>(REQUEST_ID),
{
    match outcome {
        Err(e) => Err(map_host_error(e)),
        Ok(()) => Ok(REQUEST_ID),
    }
}

/// Buffer requirements for a card with blocks of `block_size` bytes: any DMA
/// address, page alignment, one block per buffer.
pub fn buff_config(block_size: usize) -> (c: BuffConfig)
    ensures
        c == (BuffConfig { dma_mask: u64::MAX, align: BUFFER_ALIGN, size: block_size }),
{
    BuffConfig { dma_mask: u64::MAX, align: BUFFER_ALIGN, size: block_size }
}

/// Size of the controller register window to map: the size from the device
/// tree, or the default when it gives none.
pub fn mci_iomap_size(reg_size: Option<usize>) -> (size: usize)
    ensures
        size == match reg_size {
            Some(s) => s,
            None => DEFAULT_MCI_REG_SIZE,
        },
{
    match reg_size {
        Some(s) => s,
        None => DEFAULT_MCI_REG_SIZE,
    }
}

/// Host controller errors that a retry may clear are exactly the timeouts
/// and failed transfers; no buffer error is ever retried.
pub proof fn lemma_retry_errors(err: HostError)
    ensures
        block_error_of(err) == BlockError::Retry <==> (err == HostError::Timeout || err
            == HostError::TransferFailed || err == HostError::StopTransmissionFailed || err
            == HostError::WaitWriteCompleteFailed),
{
}

/// Exactly card detection, card initialisation and voltage failures mean the
/// card is not supported; every error that is neither retried nor
/// unsupported is passed on unchanged as the cause.
pub proof fn lemma_not_supported_errors(err: HostError)
    ensures
        block_error_of(err) == BlockError::NotSupported <==> (err == HostError::CardDetectFailed
            || err == HostError::CardInitFailed || err == HostError::InvalidVoltage || err
            == HostError::SwitchVoltageFail || err == HostError::SwitchVoltage18VFail33VSuccess),
        !(err == HostError::Timeout || err == HostError::TransferFailed || err
            == HostError::StopTransmissionFailed || err == HostError::WaitWriteCompleteFailed
            || err == HostError::CardDetectFailed || err == HostError::CardInitFailed || err
            == HostError::InvalidVoltage || err == HostError::SwitchVoltageFail || err
            == HostError::SwitchVoltage18VFail33VSuccess) ==> block_error_of(err)
            == BlockError::Other(ErrorCause::Host(err)),
{
}

/// Every host controller error either gets a block error kind of its own or
/// is passed on unchanged as the cause.
pub proof fn lemma_host_error_kept(err: HostError)
    ensures
        block_error_of(err) is Other ==> block_error_of(err) == BlockError::Other(
            ErrorCause::Host(err),
        ),
        block_error_of(err) is Retry || block_error_of(err) is NotSupported || block_error_of(
            err,
        ) is Other,
{
}

/// A buffer of at least one block that is not made of whole aligned words is
/// refused for its alignment; a size error is only ever given for a buffer
/// shorter than one block, and carries its length and the 512-byte minimum.
pub proof fn lemma_buffer_error_kinds(len: usize, prefix_len: usize, suffix_len: usize)
    ensures
        len >= 512 && (prefix_len != 0 || suffix_len != 0) ==> buffer_check(
            len,
            prefix_len,
            suffix_len,
        ) == Err::<(), BufferError>(BufferError::InvalidAlignment),
        buffer_check(len, prefix_len, suffix_len) matches Err(BufferError::InvalidSize {
            expected,
            actual,
        }) ==> actual == len && expected == 512 && actual < expected,
        buffer_check(len, prefix_len, suffix_len) == Err::<(), BufferError>(
            BufferError::InvalidAlignment,
        ) ==> len >= 512 && (prefix_len != 0 || suffix_len != 0),
{
}

/// Bytes of a buffer of `len` bytes at address `addr` that come before its
/// first 4-byte-aligned 32-bit word.
pub open spec fn word_prefix_len(addr: nat, len: nat) -> nat {
    let gap = ((4 - addr % 4) % 4) as nat;
    if gap < len {
        gap
    } else {
        len
    }
}

/// Bytes of a buffer of `len` bytes at address `addr` that come after its
/// last whole aligned 32-bit word.
pub open spec fn word_suffix_len(addr: nat, len: nat) -> nat {
    ((len - word_prefix_len(addr, len)) % 4) as nat
}

/// A buffer shaped as `buff_config` announces it (`size` bytes at an address
/// aligned to `align`) is accepted, for a card whose block size is at least
/// one block and a whole number of 32-bit words.
pub proof fn lemma_buff_config_buffers_pass(c: BuffConfig, addr: nat)
    requires
        c.align == BUFFER_ALIGN,
        c.size >= BLOCK_SIZE,
        c.size % 4 == 0,
        addr % (c.align as nat) == 0,
    ensures
        word_prefix_len(addr, c.size as nat) == 0,
        word_suffix_len(addr, c.size as nat) == 0,
        buffer_check(
            c.size,
            word_prefix_len(addr, c.size as nat) as usize,
            word_suffix_len(addr, c.size as nat) as usize,
        ) is Ok,
{
    assert(addr % 4 == 0) by (nonlinear_arith)
        requires
            addr % 4096 == 0,
    {
        let q = addr / 4096;
        assert(addr == 4096 * q);
        assert(addr == 4 * (1024 * q));
    }
}

/// A buffer is accepted exactly when it holds a whole block and is made of
/// aligned 32-bit words; a short buffer is refused for its size whatever its
/// alignment.
pub proof fn lemma_buffer_acceptance(len: usize, prefix_len: usize, suffix_len: usize)
    ensures
        buffer_check(len, prefix_len, suffix_len) is Ok <==> (len >= BLOCK_SIZE && prefix_len == 0
            && suffix_len == 0),
        len < BLOCK_SIZE ==> buffer_check(len, prefix_len, suffix_len) == Err::<(), BufferError>(
            BufferError::InvalidSize { expected: BLOCK_SIZE, actual: len },
        ),
{
}

} // verus!
