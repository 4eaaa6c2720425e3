//! A terminal client for a Jellyfin media server, without its terminal and
//! without its network: the state of the three panes, what each key and each
//! answer of the server does to it, what is drawn, which requests are sent and
//! how a running player is followed.
pub mod app;
pub mod cache;
pub mod key_laws;
pub mod laws;
pub mod media;
pub mod message;
pub mod network;
pub mod network_laws;
pub mod playback;
pub mod playback_laws;
pub mod screen;
pub mod screen_laws;
pub mod seasons;
pub mod state;
pub mod text;
pub mod view_laws;
