//! Transactional core of a decentralized exchange ledger.
//!
//! The crate keeps three kinds of record (the exchange, its trading pairs and
//! the orders placed on them) and decides five operations on them. An
//! operation either stages every change it makes and names the custody
//! transfers that go with it, or refuses and stages nothing. Moving value is
//! left to the custody gateway of the host: the host performs the transfers an
//! operation names, in order, and keeps the staged records only if all of them
//! went through.

pub mod amm;
pub mod custody;
pub mod errors;
pub mod identity;
pub mod laws;
pub mod orders;
pub mod registry;
pub mod state;

pub use amm::{swap, Swap, SwapSettlement};
pub use custody::{Authorization, CustodyError, Transfer};
pub use errors::ErrorCode;
pub use identity::{CustodyCapability, Identity};
pub use orders::{cancel_order, place_order, CancelOrder, PlaceOrder};
pub use registry::{create_pair, initialize_exchange, CreatePair, InitializeExchange};
pub use state::{Clock, Exchange, Order, OrderSide, OrderType, Record, TradingPair};
