pub mod client;
pub mod codec_lemmas;
pub mod context;
pub mod context_lemmas;
pub mod error;
pub mod event;
pub mod frame;
pub mod listener;
pub mod standard;
pub mod state;
pub mod util;
