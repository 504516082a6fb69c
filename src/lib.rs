//! A fee vault whose wallet is a program-derived address, and which pays the
//! rent of program-owned collaborator records, modelled over plain account
//! values with every instruction's effect stated and proved.

pub mod address;
pub mod error;
pub mod lemmas;
pub mod pda;
pub mod program;
pub mod state;
pub mod system;

pub use address::Address;
pub use error::ProgramError;
pub use program::{
    create_collaborator, create_fee_vault, deposit_in_fee_vault, withdraw_from_fee_vault, CreateCollaborator,
    CreateFeeVault, DepositInFeeVault, WithdrawFromFeeVault,
};
pub use state::{Collaborator, FeeVault};
pub use system::AccountInfo;
