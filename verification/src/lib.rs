//! The logic of a transcoding worker.
//!
//! A worker asks a server for a video to transcode, claims the job, downloads the video,
//! makes its renditions with `ffmpeg`, publishes them in an object store under disguised
//! names, and tells the server where they are. This library decides what is done and in
//! which order, and computes the addresses, bodies, keys, paths, command lines, playlists and
//! messages for it. The program around it reads the environment, does what it is told and
//! hands back what it sees, with the errors that it ran into.

pub mod accel;
pub mod api;
pub mod encoding;
pub mod host;
pub mod links;
pub mod media;
pub mod number;
pub mod pipeline;
pub mod poll;
pub mod publish;
pub mod runs;
pub mod scratch;
pub mod settings;
pub mod status;
pub mod text;
pub mod transcode;
