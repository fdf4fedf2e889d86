use vstd::prelude::*;

verus! {

/// How many bytes one read of the response stream asks the host for.
pub const READ_CHUNK_SIZE: u64 = 8192;

/// What one blocking read of the host's response stream gave.
#[derive(Debug, Clone, PartialEq, Eq)]
pub enum StreamRead {
    /// The host handed over these bytes, possibly none.
    Chunk(Vec<u8>),
    /// The stream is closed: the body has ended.
    Closed,
    /// The read failed; the text describes the host's error.
    Failed(String),
}

/// What the response body yields after one read.
#[derive(Debug, Clone, PartialEq, Eq)]
pub enum FrameStep {
    /// A data frame with these bytes.
    Data(Vec<u8>),
    /// The body has ended.
    End,
    /// The body failed; the text describes the error.
    Error(String),
}

/// The step that the body yields for `read`: a non-empty chunk is a data
/// frame, an empty chunk or a closed stream ends the body, and a failed read
/// is an error.
pub open spec fn frame_step_spec(read: StreamRead, step: FrameStep) -> bool {
    match read {
        StreamRead::Chunk(bytes) => if bytes@.len() == 0 {
            step == FrameStep::End
        } else {
            step is Data && step->Data_0@ == bytes@
        },
        StreamRead::Closed => step == FrameStep::End,
        StreamRead::Failed(detail) => step is Error && step->Error_0@ == detail@,
    }
}

/// Turns the outcome of one read of the response stream into the body's next
/// step.
pub fn frame_step(read: StreamRead) -> (r: FrameStep)
    ensures
        frame_step_spec(read, r),
{
    match read {
        StreamRead::Chunk(bytes) => if bytes.len() == 0 {
            FrameStep::End
        } else {
            FrameStep::Data(bytes)
        },
        StreamRead::Closed => FrameStep::End,
        StreamRead::Failed(detail) => FrameStep::Error(detail),
    }
}

} // verus!
