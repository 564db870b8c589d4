pub mod abi;
pub mod address;
pub mod amount;
pub mod reader;
pub mod token;

pub use address::Address;
pub use amount::Amount;
pub use reader::{PortfolioReader, ReaderError};
pub use token::MockToken;
