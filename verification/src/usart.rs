//! The USARTs.

pub mod instances;
pub mod tx;

pub use self::instances::Instance;
pub use self::tx::Tx;
