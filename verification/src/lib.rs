//! Recording core of the Capture Forge screen recorder: the session state
//! machine, the binary chunk format and its writer, the export pipeline, and
//! the state kept by the recorder's user-interface surfaces.

pub mod error;
pub mod text;
pub mod messaging;
pub mod recovery;
pub mod recorder;
pub mod chunk;
pub mod export;
pub mod lifecycle;
pub mod stream;
pub mod countdown;
pub mod status_bar;
pub mod preview;
pub mod recovery_toast;
pub mod background;
