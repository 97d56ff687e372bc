//! A verified model of the bridge between a callback-driven native windowing
//! system and owned application objects.
//!
//! The library covers the pieces of a windowed sample program that carry real
//! protocol logic: one-time registration of a window class
//! ([`registry`]), the creation handshake that binds a host object to a
//! native window ([`window`]), the routing of every subsequent message back
//! to its host ([`router`]), the message loop that pumps until a termination
//! signal arrives ([`message_loop`]), the hardware-to-software driver
//! fallback policy ([`driver`]), and the descriptor used to call a foreign
//! object's method through its virtual dispatch table when no generated
//! binding exists ([`foreign`]). The per-window storage behind the router is
//! an explicit side table keyed by the native handle ([`side_table`]), and
//! the laws of the composed bridge — what one full pass over a message
//! amounts to, and the creation handshake — stand in [`protocol`].
//!
//! The operating system itself is the environment: the library states, as
//! contracts over plain values, what each decision point does with the events
//! the environment hands in, and an embedder performs the native calls.

pub mod driver;
pub mod foreign;
pub mod message_loop;
pub mod messages;
pub mod protocol;
pub mod registry;
pub mod router;
pub mod side_table;
pub mod window;
