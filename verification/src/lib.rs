//! The decisions of a video archiver, each stated as a contract and proved.
//!
//! Given the address of a video or of a channel, the archiver reads the
//! identifier out of the address, lists the videos of a channel page by
//! page, fetches what describes a video, and gets the video itself through a
//! relay. This library decides what is asked of which service and what each
//! answer leads to. It sends nothing and stores nothing: the caller performs
//! each request and each write, and hands back what came of it.

pub mod channel;
pub mod cobalt;
pub mod failure;
pub mod http;
pub mod metadata;
pub mod target;
pub mod text;
pub mod youtube;
