//! The configuration vocabulary of the hardware video encoders.

use vstd::prelude::*;

verus! {

/// A graphics API whose textures an encoder reads.
pub trait Api {
    type Texture;
    type Device;
}

/// Direct3D 11.
pub struct Dx11;

/// The GPU vendor whose encoder is used.
#[derive(PartialEq, Eq, Structural, Debug)]
pub enum Vendor {
    AMD,
    Nvidia,
}

/// Why no encoded data was handed out.
#[derive(PartialEq, Eq, Structural, Debug)]
pub enum RecvError {
    /// Nothing is ready yet; ask again.
    Repeat,
    /// The stream has ended.
    Eof,
}

/// Why a frame was not accepted.
#[derive(PartialEq, Eq, Structural, Debug)]
pub enum EncSendError {
    /// The encoder's input queue is full.
    InputFull,
}

/// The latency trade-off the encoder is tuned for.
#[derive(Clone, Copy, PartialEq, Eq, Structural, Debug)]
pub enum TuningInfo {
    LowLatency,
    UltraLowLatency,
}

/// The pixel format of the frames handed to the encoder.
#[derive(Clone, Copy, PartialEq, Eq, Structural, Debug)]
pub enum Format {
    RGBA,
}

/// The output codec.
#[derive(Clone, Copy, PartialEq, Eq, Structural, Debug)]
pub enum Codec {
    H264,
}

/// Encoder settings.
#[derive(Clone, Copy, Debug)]
pub struct Config {
    pub codec: Codec,
    pub tuning_info: TuningInfo,
    pub format: Format,
    pub target_bit_rate: u32,
    pub resolution: [u32; 2],
    pub frame_rate: [u32; 2],
    pub gop_len: u16,
}

/// How a poll of the AMD encoder's output ended.
#[derive(Clone, Copy, PartialEq, Eq, Structural, Debug)]
pub enum AmfOutput {
    /// A buffer of encoded data is ready.
    Data,
    /// Nothing is ready yet.
    Repeat,
    /// The stream has ended.
    Eof,
}

/// What the receiver does after polling the AMD encoder: hand the data on,
/// or report why there is none.
pub fn amf_recv_result(output: AmfOutput) -> (r: Result<(), RecvError>)
    ensures
        r == (match output {
            AmfOutput::Data => Ok::<(), RecvError>(()),
            AmfOutput::Repeat => Err(RecvError::Repeat),
            AmfOutput::Eof => Err(RecvError::Eof),
        }),
{
    match output {
        AmfOutput::Data => Ok(()),
        AmfOutput::Repeat => Err(RecvError::Repeat),
        AmfOutput::Eof => Err(RecvError::Eof),
    }
}

/// What the channel from the NVIDIA encoding thread gave.
#[derive(Clone, Copy, PartialEq, Eq, Structural, Debug)]
pub enum NvMessageKind {
    /// An encoded bitstream buffer.
    Frame,
    /// The sender ended the stream.
    End,
    /// No message yet.
    Empty,
    /// The sender is gone.
    Disconnected,
}

/// What the receiver does with a message from the NVIDIA encoding thread.
#[derive(PartialEq, Eq, Structural, Debug)]
pub enum NvRecvStep {
    /// Lock the bitstream buffer and hand its data on.
    ReadFrame,
    /// Report why there is no data.
    Stop(RecvError),
}

/// The receiver reads a delivered buffer; the end of the stream or a gone
/// sender is `Eof`, no message yet is `Repeat`.
pub fn nv_recv_step(message: NvMessageKind) -> (r: NvRecvStep)
    ensures
        r == (match message {
            NvMessageKind::Frame => NvRecvStep::ReadFrame,
            NvMessageKind::End => NvRecvStep::Stop(RecvError::Eof),
            NvMessageKind::Empty => NvRecvStep::Stop(RecvError::Repeat),
            NvMessageKind::Disconnected => NvRecvStep::Stop(RecvError::Eof),
        }),
{
    match message {
        NvMessageKind::Frame => NvRecvStep::ReadFrame,
        NvMessageKind::End => NvRecvStep::Stop(RecvError::Eof),
        NvMessageKind::Empty => NvRecvStep::Stop(RecvError::Repeat),
        NvMessageKind::Disconnected => NvRecvStep::Stop(RecvError::Eof),
    }
}

/// The result of reading a bitstream buffer: when it is still locked by the
/// encoder the receiver reports `Repeat` (and the buffer is not handed back
/// to the encoding thread); otherwise the data is handed on and the buffer
/// goes back, which fails only when the encoding thread is gone.
pub fn nv_frame_result(lock_busy: bool, returned_to_encoder: bool) -> (r: Result<(), RecvError>)
    ensures
        r == (if lock_busy {
            Err::<(), RecvError>(RecvError::Repeat)
        } else if returned_to_encoder {
            Ok(())
        } else {
            Err(RecvError::Eof)
        }),
{
    if lock_busy {
        Err(RecvError::Repeat)
    } else if returned_to_encoder {
        Ok(())
    } else {
        Err(RecvError::Eof)
    }
}

/// The result of handing a frame to the AMD encoder: a full input queue is
/// reported, anything else accepted went through.
pub fn amf_send_result(input_full: bool) -> (r: Result<(), EncSendError>)
    ensures
        r == (if input_full {
            Err::<(), EncSendError>(EncSendError::InputFull)
        } else {
            Ok(())
        }),
{
    if input_full {
        Err(EncSendError::InputFull)
    } else {
        Ok(())
    }
}

} // verus!
