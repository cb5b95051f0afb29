//! A status bar made of independently refreshed text blocks.
//!
//! Each block owns a timed cache that decides when its text is stale and
//! refreshes it either inline or through a pool of workers. The bar joins the
//! blocks into one line, knows how long it may sleep until the next block is
//! due, and reacts to the commands of a small remote-control protocol.

pub mod channel;
pub mod clock;
pub mod monitor;
pub mod statusbar;
pub mod statusblock;
pub mod text;
pub mod threadpool;

pub use statusbar::builder::StatusBarBuilder;
pub use statusbar::StatusBar;
pub use statusblock::builder::StatusBlockBuilder;
pub use statusblock::cache::TimedCache;
pub use statusblock::StatusBlock;
