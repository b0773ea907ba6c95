use vstd::prelude::*;
use crate::authority::{seeds_view, MintAuthority, MintAuthorityView};
use crate::config::{Config, ConfigView};
use crate::deposits::{claim_record, is_claimed, DepositLedger, ProcessedDeposit};
use crate::error::BridgeError;
use crate::identity::Identity;

verus! {

/// What the bridge reads of an account that holds tokens.
#[derive(Clone, Copy, Debug, PartialEq, Eq)]
pub struct TokenAccount {
    /// The account's own identity.
    pub key: Identity,
    /// The token that the account holds.
    pub mint: Identity,
    /// Who may spend from the account.
    pub owner: Identity,
}

/// What `mint_from_polygon` works on.
#[derive(Clone, Debug, PartialEq, Eq)]
pub struct MintFromPolygon {
    /// The bridge's configuration.
    pub config: Config,
    /// The token that the caller asks to have minted.
    pub gift_mint: Identity,
    /// The authority under which the bridge mints.
    pub mint_authority: MintAuthority,
    /// The token account to credit.
    pub recipient_token_account: TokenAccount,
    /// The deposits minted so far.
    pub deposits: DepositLedger,
    /// Who asks for the mint.
    pub caller: Identity,
}

/// The order to the token program that a successful `mint_from_polygon`
/// hands back, with the proof of the right to give it.
#[derive(Clone, Debug, PartialEq, Eq)]
pub struct MintReceipt {
    /// The token to mint.
    pub mint: Identity,
    /// The token account to credit.
    pub to: Identity,
    /// How many units to mint.
    pub amount: u64,
    /// The minting authority, in whose name the order is given.
    pub authority: Identity,
    /// The seeds that prove the right to act as the authority.
    pub signer_seeds: Vec<Vec<u8>>,
    /// The record that now marks the deposit as minted.
    pub deposit: ProcessedDeposit,
}

/// What a `MintFromPolygon` holds, as mathematical values.
pub struct MintFromPolygonView {
    pub config: ConfigView,
    pub gift_mint: Identity,
    pub mint_authority: MintAuthorityView,
    pub recipient_token_account: TokenAccount,
    pub deposits: Seq<ProcessedDeposit>,
    pub caller: Identity,
}

/// What a `MintReceipt` holds, as mathematical values.
pub struct MintReceiptView {
    pub mint: Identity,
    pub to: Identity,
    pub amount: u64,
    pub authority: Identity,
    pub signer_seeds: Seq<Seq<u8>>,
    pub deposit: ProcessedDeposit,
}

impl View for MintFromPolygon {
    type V = MintFromPolygonView;

    open spec fn view(&self) -> MintFromPolygonView {
        MintFromPolygonView {
            config: self.config@,
            gift_mint: self.gift_mint,
            mint_authority: self.mint_authority@,
            recipient_token_account: self.recipient_token_account,
            deposits: self.deposits@,
            caller: self.caller,
        }
    }
}

impl View for MintReceipt {
    type V = MintReceiptView;

    open spec fn view(&self) -> MintReceiptView {
        MintReceiptView {
            mint: self.mint,
            to: self.to,
            amount: self.amount,
            authority: self.authority,
            signer_seeds: seeds_view(self.signer_seeds@),
            deposit: self.deposit,
        }
    }
}

impl MintFromPolygonView {
    /// The supplied token is the configured one, and the recipient's account
    /// holds that token.
    pub open spec fn token_matches(self) -> bool {
        self.gift_mint == self.config.gift_mint && self.recipient_token_account.mint
            == self.gift_mint
    }

    /// Why a mint of `amount` for `deposit_id` is refused, or `None` where
    /// it goes through. The tests are made in this order: the amount, the
    /// caller, the deposit, the token.
    pub open spec fn refusal(self, amount: u64, deposit_id: [u8; 32]) -> Option<BridgeError> {
        if amount == 0 {
            Some(BridgeError::ZeroAmount)
        } else if !self.config.authorizes(self.caller) {
            Some(BridgeError::Unauthorized)
        } else if is_claimed(self.deposits, deposit_id) {
            Some(BridgeError::DepositAlreadyProcessed)
        } else if !self.token_matches() {
            Some(BridgeError::TokenMismatch)
        } else {
            None
        }
    }

    /// The receipt of a mint of `amount` for `deposit_id` that goes through.
    pub open spec fn receipt(self, amount: u64, deposit_id: [u8; 32]) -> MintReceiptView {
        MintReceiptView {
            mint: self.config.gift_mint,
            to: self.recipient_token_account.key,
            amount,
            authority: self.mint_authority.address,
            signer_seeds: self.mint_authority.signer_seeds(),
            deposit: claim_record(deposit_id),
        }
    }

    /// What is left behind by a request to mint `amount` for `deposit_id`: a
    /// new record of the deposit where the mint goes through, and otherwise
    /// no change.
    pub open spec fn after_mint(self, amount: u64, deposit_id: [u8; 32]) -> MintFromPolygonView {
        if self.refusal(amount, deposit_id) is None {
            MintFromPolygonView { deposits: self.deposits.push(claim_record(deposit_id)), ..self }
        } else {
            self
        }
    }
}

/// Mints the wrapped token for a deposit made on the home chain, once.
///
/// The caller must be the admin or a minter, and vouches for the deposit:
/// nothing here looks at the home chain. The deposit is claimed in the one
/// step that decides whether the mint goes through, and the receipt is the
/// order that the token program is to carry out under the minting authority.
pub fn mint_from_polygon(ctx: &mut MintFromPolygon, amount: u64, deposit_id: [u8; 32]) -> (result:
    Result<MintReceipt, BridgeError>)
    ensures
        final(ctx)@ == old(ctx)@.after_mint(amount, deposit_id),
        match old(ctx)@.refusal(amount, deposit_id) {
            Some(error) => result == Err::<MintReceipt, BridgeError>(error) && *final(ctx) == *old(
                ctx,
            ),
            None => result is Ok && result->Ok_0@ == old(ctx)@.receipt(amount, deposit_id),
        },
        result is Ok ==> final(ctx)@.mint_authority.is_derived(),
{
    if amount == 0 {
        return Err(BridgeError::ZeroAmount);
    }
    if !ctx.config.is_authorized(&ctx.caller) {
        return Err(BridgeError::Unauthorized);
    }
    // Claiming the deposit is the only write, so the token is looked at
    // first; a deposit that was minted before is still what gets reported.
    let token_matches = ctx.gift_mint == ctx.config.gift_mint && ctx.recipient_token_account.mint
        == ctx.gift_mint;
    if !token_matches {
        if ctx.deposits.is_processed(&deposit_id) {
            return Err(BridgeError::DepositAlreadyProcessed);
        }
        return Err(BridgeError::TokenMismatch);
    }
    let deposit = match ctx.deposits.claim(deposit_id) {
        Ok(record) => record,
        Err(error) => {
            return Err(error);
        },
    };
    let authority = ctx.mint_authority.address();
    let signer_seeds = ctx.mint_authority.signer_seeds();
    Ok(
        MintReceipt {
            mint: ctx.gift_mint,
            to: ctx.recipient_token_account.key,
            amount,
            authority,
            signer_seeds,
            deposit,
        },
    )
}

} // verus!
