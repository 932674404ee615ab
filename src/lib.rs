//! A minimal "one image on screen" core: decoded pixel data, device and
//! surface negotiation, upload sizing and the per-tick frame state machine.
//! Every decision is made here on plain values; the graphics and windowing
//! calls themselves are made by the caller, which feeds their outcomes back.

pub mod pixels;
pub mod custom_image;
pub mod device;
pub mod surface;
pub mod upload;
pub mod frame_loop;
