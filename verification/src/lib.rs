//! Verified core of a system-audio recorder: the recording session state
//! machine, the choice of output format, and the Ogg/Opus stream layout
//! (header packets, frame plan, granule positions, page framing).

pub mod capture;
pub mod mixing;
pub mod ogg_writer;
pub mod opus_stream;
pub mod session;
pub mod text;
