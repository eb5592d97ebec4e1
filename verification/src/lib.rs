//! The logic of a desktop applet that shares a directory over WebDAV and
//! browses the shares of other machines: configuration, firewall commands,
//! share discovery, the daemon's decisions and the applet's state machine.
pub mod text;
pub mod config;
pub mod firewall;
pub mod discovery;
pub mod daemon;
pub mod applet;
pub mod popup;
pub mod install;
