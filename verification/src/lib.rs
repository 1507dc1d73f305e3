//! Enumerates a host's network adapters from a decoded snapshot, keeps the
//! IEEE 802.11 (Wi-Fi) ones, classifies each as physical or virtual by a
//! keyword heuristic on its description, formats hardware addresses as
//! hex-dash strings, and picks the first physical Wi-Fi address for the
//! clipboard.

pub mod adapter;
pub mod classify;
pub mod fetch;
pub mod mac;
pub mod output;
pub mod parse;
