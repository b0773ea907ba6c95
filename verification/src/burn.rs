use vstd::prelude::*;
use crate::config::{Config, ConfigView};
use crate::error::BridgeError;
use crate::identity::Identity;
use crate::mint::TokenAccount;

verus! {

/// What `burn_for_polygon` works on.
#[derive(Clone, Debug, PartialEq, Eq)]
pub struct BurnForPolygon {
    /// The bridge's configuration.
    pub config: Config,
    /// The token account to burn from.
    pub user_token_account: TokenAccount,
    /// Who asks for the burn.
    pub user: Identity,
}

/// The notice that tokens were burnt and a payout is owed on the home chain.
/// It is all that the relayer learns of a withdrawal.
#[derive(Clone, Copy, Debug, PartialEq, Eq)]
pub struct BurnForPolygonEvent {
    /// Who burnt the tokens.
    pub user: Identity,
    /// How many units were burnt.
    pub amount: u64,
    /// Where the payout goes on the home chain.
    pub polygon_recipient: [u8; 20],
}

/// What a successful `burn_for_polygon` hands back: the order to the token
/// program, and the event to publish once the order is carried out.
#[derive(Clone, Copy, Debug, PartialEq, Eq)]
pub struct WithdrawalIntent {
    /// The token to burn.
    pub mint: Identity,
    /// The token account to burn from.
    pub from: Identity,
    /// The owner of that account, in whose name the order is given.
    pub authority: Identity,
    /// How many units to burn.
    pub amount: u64,
    /// The event to publish.
    pub event: BurnForPolygonEvent,
}

/// What a `BurnForPolygon` holds, as mathematical values.
pub struct BurnForPolygonView {
    pub config: ConfigView,
    pub user_token_account: TokenAccount,
    pub user: Identity,
}

impl View for BurnForPolygon {
    type V = BurnForPolygonView;

    open spec fn view(&self) -> BurnForPolygonView {
        BurnForPolygonView {
            config: self.config@,
            user_token_account: self.user_token_account,
            user: self.user,
        }
    }
}

impl BurnForPolygonView {
    /// Why a burn of `amount` is refused, or `None` where it goes through.
    /// The tests are made in this order: the amount, the token, the owner.
    pub open spec fn refusal(self, amount: u64) -> Option<BridgeError> {
        if amount == 0 {
            Some(BridgeError::ZeroAmount)
        } else if self.user_token_account.mint != self.config.gift_mint {
            Some(BridgeError::TokenMismatch)
        } else if self.user_token_account.owner != self.user {
            Some(BridgeError::Unauthorized)
        } else {
            None
        }
    }

    /// The outcome of a burn of `amount` that goes through.
    pub open spec fn withdrawal(self, amount: u64, polygon_recipient: [u8; 20]) -> WithdrawalIntent {
        WithdrawalIntent {
            mint: self.config.gift_mint,
            from: self.user_token_account.key,
            authority: self.user,
            amount,
            event: BurnForPolygonEvent { user: self.user, amount, polygon_recipient },
        }
    }
}

/// Burns the caller's own wrapped tokens to ask for a payout on the home
/// chain. Any holder may do so; nothing is recorded, since each burn takes
/// from the caller's balance and so cannot be replayed.
pub fn burn_for_polygon(ctx: &BurnForPolygon, amount: u64, polygon_recipient: [u8; 20]) -> (result:
    Result<WithdrawalIntent, BridgeError>)
    ensures
        result == match ctx@.refusal(amount) {
            Some(error) => Err::<WithdrawalIntent, BridgeError>(error),
            None => Ok::<WithdrawalIntent, BridgeError>(ctx@.withdrawal(amount, polygon_recipient)),
        },
{
    if amount == 0 {
        return Err(BridgeError::ZeroAmount);
    }
    if !(ctx.user_token_account.mint == ctx.config.gift_mint) {
        return Err(BridgeError::TokenMismatch);
    }
    if !(ctx.user_token_account.owner == ctx.user) {
        return Err(BridgeError::Unauthorized);
    }
    Ok(
        WithdrawalIntent {
            mint: ctx.config.gift_mint,
            from: ctx.user_token_account.key,
            authority: ctx.user,
            amount,
            event: BurnForPolygonEvent { user: ctx.user, amount, polygon_recipient },
        },
    )
}

} // verus!
