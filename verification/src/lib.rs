//! Lagide: the verified core of a terminal hub for WSL distributions, SSH
//! sessions, SFTP transfers and SSH tunnels.

pub mod error;
pub mod panels;
pub mod session;
pub mod sftp;
pub mod ssh;
pub mod sysinfo_mod;
pub mod terminal;
pub mod text;
pub mod tui;
pub mod tunnel;
pub mod wsl;
