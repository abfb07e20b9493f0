//! A minimal hardware-register access layer.
//!
//! Registers come in two kinds: memory-mapped registers ([`Mmio`]), which own
//! their value slot directly, and port registers ([`Pio`]), which address a
//! 16-bit port and delegate the actual transfer to a pluggable [`PortBackend`]
//! strategy. All port transfers move exactly 1, 2 or 4 bytes, always in
//! little-endian order, whatever the host's endianness.

mod backend;
mod codec;
mod io;
mod ioctl;
mod mmio;
mod pio;

pub use self::backend::EchoBackend;
pub use self::backend::PortBackend;
pub use self::backend::lemma_echo_read_after_write;
pub use self::backend::zero_bytes;
pub use self::codec::decode_le;
pub use self::codec::encode_le;
pub use self::codec::fits_width;
pub use self::codec::le_bytes_of;
pub use self::codec::le_value_of;
pub use self::codec::lemma_le_bytes_of_value;
pub use self::codec::lemma_le_round_trip;
pub use self::codec::valid_width;
pub use self::codec::width_is_valid;
pub use self::io::Io;
pub use self::ioctl::PortRequest;
pub use self::ioctl::truncate_to_width;
pub use self::mmio::Mmio;
pub use self::pio::Pio;
pub use self::pio::port_read;
pub use self::pio::port_write;
