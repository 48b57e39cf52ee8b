//! Safe, verified marshalling layer over a native barcode engine.
//!
//! The engine itself (detection, decoding, rendering) is reached through a
//! narrow C boundary that lives outside this crate. What this crate holds is
//! the logic on each side of that boundary: the symbology set and its native
//! codes, the engine's status codes as typed errors, the description of a
//! pixel buffer handed to the engine, and the decisions taken on what the
//! engine hands back.
pub mod decode;
pub mod encode;
pub mod error;
pub mod format;
pub mod pixels;

pub use decode::{decode_status, DecodeStatus, DecodedQrCode};
pub use encode::{encode_request, encoded_len, nul_terminated, EncodeRequest};
pub use error::{DecodeError, EncodeError};
pub use format::Format;
pub use pixels::{NativeDecodeArgs, PixelBufferDescriptor, RgbPixels};
