//! Minimal driver for a BQ40Z50-class battery fuel gauge reached over a
//! two-wire register-oriented bus.
//!
//! The driver owns a bus transport and exposes one typed accessor per
//! monitored register. Each accessor issues a single write-then-read
//! transaction (one address byte written, a two-byte little-endian reply
//! read), decodes the reply, and returns the value or the transport's error,
//! wrapped. The driver keeps no state between calls and never retries.

mod codec;
mod driver;
mod mock;
mod registers;
mod transport;

pub use codec::convert_temperature_centi;
pub use codec::decode_word;
pub use codec::le_word;
pub use codec::lemma_le_word_injective;
pub use driver::lemma_reads_never_cached;
pub use driver::word_read_step;
pub use driver::Error;
pub use driver::BQ40Z50;
pub use mock::issued_view;
pub use mock::Issued;
pub use mock::MockError;
pub use mock::MockTransport;
pub use mock::SCRIPT_EXHAUSTED;
pub use registers::Address;
pub use registers::Cmd;
pub use registers::CmdBlock;
pub use transport::Transaction;
pub use transport::WriteRead;
