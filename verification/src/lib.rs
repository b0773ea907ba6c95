//! The control core of a two-way token bridge, on the side of the remote
//! chain: who may mint the wrapped token for a deposit made on the home chain,
//! that each deposit is minted at most once, and what a burn of the wrapped
//! token tells the relayer that pays out on the home chain.
//!
//! The core decides and records. It never moves a token: a mint that goes
//! through hands back the order for the token program, signed for the derived
//! minting authority, and a burn hands back the order and the event to
//! publish. Every function here is verified against its contract, and `laws`
//! states what holds across calls.

pub mod authority;
pub mod burn;
pub mod config;
pub mod deposits;
pub mod error;
pub mod identity;
pub mod laws;
pub mod mint;

pub use authority::{MintAuthority, MINT_AUTHORITY_LABEL};
pub use burn::{burn_for_polygon, BurnForPolygon, BurnForPolygonEvent, WithdrawalIntent};
pub use config::{
    add_minter, initialize_config, remove_minter, Config, InitializeConfig, UpdateMinters,
    MAX_EXTRA_MINTERS,
};
pub use deposits::{DepositLedger, ProcessedDeposit};
pub use error::BridgeError;
pub use identity::Identity;
pub use mint::{mint_from_polygon, MintFromPolygon, MintReceipt, TokenAccount};
