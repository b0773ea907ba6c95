use vstd::prelude::*;
use crate::authority::MintAuthorityView;
use crate::burn::BurnForPolygonView;
use crate::config::{
    lemma_filter_keeps_distinct, lemma_push_fresh_keeps_distinct, other_than, ConfigView,
    MAX_EXTRA_MINTERS,
};
use crate::deposits::{
    claim_record, is_claimed, ledger_well_formed, lemma_claim_keeps_well_formed, ProcessedDeposit,
};
use crate::error::BridgeError;
use crate::identity::Identity;
use crate::mint::MintFromPolygonView;

verus! {

/// The admin may always mint, whoever else is or is not a minter.
pub proof fn law_admin_is_authorized(config: ConfigView)
    ensures
        config.authorizes(config.admin),
{
}

/// Adding and removing a minter are refused as unauthorized exactly when the
/// caller is not the admin.
pub proof fn law_only_admin_updates_minters(config: ConfigView, caller: Identity, minter: Identity)
    ensures
        caller != config.admin <==> config.add_minter(caller, minter) == Err::<
            ConfigView,
            BridgeError,
        >(BridgeError::Unauthorized),
        caller != config.admin <==> config.remove_minter(caller, minter) == Err::<
            ConfigView,
            BridgeError,
        >(BridgeError::Unauthorized),
        caller == config.admin ==> config.remove_minter(caller, minter) is Ok,
{
}

/// Removing a minter that is not in the set succeeds and changes nothing.
pub proof fn law_removing_absent_minter_changes_nothing(config: ConfigView, minter: Identity)
    requires
        !config.extra_minters.contains(minter),
    ensures
        config.remove_minter(config.admin, minter) == Ok::<ConfigView, BridgeError>(config),
{
    lemma_filter_of_absent(config.extra_minters, minter);
}

/// After a removal the minter is gone, and with it the right to mint unless
/// the minter is the admin; everybody else is where they were.
pub proof fn law_removed_minter_is_gone(config: ConfigView, minter: Identity, other: Identity)
    requires
        other != minter,
    ensures
        !config.without_minter(minter).extra_minters.contains(minter),
        minter != config.admin ==> !config.without_minter(minter).authorizes(minter),
        config.without_minter(minter).authorizes(other) == config.authorizes(other),
{
    lemma_filter_keeps_distinct(config.extra_minters, other_than(minter));
}

/// Adding a minter that is already in the set succeeds and changes nothing.
pub proof fn law_adding_present_minter_changes_nothing(config: ConfigView, minter: Identity)
    requires
        config.extra_minters.contains(minter),
    ensures
        config.add_minter(config.admin, minter) == Ok::<ConfigView, BridgeError>(config),
{
}

/// A set that holds as many minters as it can takes no new one; below that
/// bound a new minter is appended, and may mint from then on.
pub proof fn law_minter_set_is_bounded(config: ConfigView, minter: Identity)
    requires
        !config.extra_minters.contains(minter),
    ensures
        config.extra_minters.len() >= MAX_EXTRA_MINTERS ==> config.add_minter(config.admin, minter)
            == Err::<ConfigView, BridgeError>(BridgeError::CapacityExceeded),
        config.extra_minters.len() < MAX_EXTRA_MINTERS ==> config.add_minter(config.admin, minter)
            == Ok::<ConfigView, BridgeError>(config.with_minter(minter)),
        config.with_minter(minter).authorizes(minter),
{
    let after = config.with_minter(minter).extra_minters;
    assert(after[after.len() - 1] == minter);
}

/// Whatever is asked of a well-formed configuration, by whomever, what is
/// left is well formed: at most sixteen minters, none of them twice.
pub proof fn law_updates_keep_config_well_formed(config: ConfigView, caller: Identity, minter: Identity)
    requires
        config.well_formed(),
    ensures
        config.add_minter(caller, minter) matches Ok(after) ==> after.well_formed(),
        config.remove_minter(caller, minter) matches Ok(after) ==> after.well_formed(),
{
    if !config.extra_minters.contains(minter) {
        lemma_push_fresh_keeps_distinct(config.extra_minters, minter);
    }
    lemma_filter_keeps_distinct(config.extra_minters, other_than(minter));
}

/// A caller who is neither the admin nor a minter gets no mint: the request
/// is refused as unauthorized, and no deposit is recorded.
pub proof fn law_unauthorized_caller_cannot_mint(ctx: MintFromPolygonView, amount: u64, deposit_id: [u8; 32])
    requires
        ctx.caller != ctx.config.admin,
        !ctx.config.extra_minters.contains(ctx.caller),
        amount > 0,
    ensures
        ctx.refusal(amount, deposit_id) == Some(BridgeError::Unauthorized),
        ctx.after_mint(amount, deposit_id) == ctx,
{
}

/// Once a mint has gone through for a deposit, a second request for the same
/// deposit is refused as already processed, whatever its amount, its
/// recipient and its token, and whichever authorized caller makes it.
pub proof fn law_deposit_mints_at_most_once(
    first: MintFromPolygonView,
    amount: u64,
    deposit_id: [u8; 32],
    second: MintFromPolygonView,
    second_amount: u64,
)
    requires
        first.refusal(amount, deposit_id) is None,
        second.deposits == first.after_mint(amount, deposit_id).deposits,
        second_amount > 0,
        second.config.authorizes(second.caller),
    ensures
        second.refusal(second_amount, deposit_id) == Some(BridgeError::DepositAlreadyProcessed),
        second.after_mint(second_amount, deposit_id) == second,
{
    lemma_claim_is_recorded(first.deposits, deposit_id);
}

/// No request for a deposit that was minted before goes through, and none
/// adds a record: of two requests for one deposit at most one succeeds.
pub proof fn law_claimed_deposit_is_never_minted_again(
    ctx: MintFromPolygonView,
    amount: u64,
    deposit_id: [u8; 32],
)
    requires
        is_claimed(ctx.deposits, deposit_id),
    ensures
        ctx.refusal(amount, deposit_id) is Some,
        ctx.after_mint(amount, deposit_id) == ctx,
{
}

/// A request to mint changes nothing but the ledger, and the ledger only
/// grows: a deposit that was claimed stays claimed, a mint that goes through
/// claims its own deposit, and a well-formed ledger stays well formed.
pub proof fn law_claims_are_permanent(
    ctx: MintFromPolygonView,
    amount: u64,
    deposit_id: [u8; 32],
    earlier: [u8; 32],
)
    ensures
        ctx.after_mint(amount, deposit_id) == (MintFromPolygonView {
            deposits: ctx.after_mint(amount, deposit_id).deposits,
            ..ctx
        }),
        is_claimed(ctx.deposits, earlier) ==> is_claimed(
            ctx.after_mint(amount, deposit_id).deposits,
            earlier,
        ),
        ctx.refusal(amount, deposit_id) is None ==> is_claimed(
            ctx.after_mint(amount, deposit_id).deposits,
            deposit_id,
        ),
        ledger_well_formed(ctx.deposits) ==> ledger_well_formed(
            ctx.after_mint(amount, deposit_id).deposits,
        ),
{
    if ctx.refusal(amount, deposit_id) is None {
        lemma_claim_is_recorded(ctx.deposits, deposit_id);
        if is_claimed(ctx.deposits, earlier) {
            let i = choose|i: int|
                0 <= i < ctx.deposits.len() && (#[trigger] ctx.deposits[i]).deposit_id == earlier
                    && ctx.deposits[i].used;
            assert(ctx.deposits.push(claim_record(deposit_id))[i] == ctx.deposits[i]);
        }
        if ledger_well_formed(ctx.deposits) {
            lemma_claim_keeps_well_formed(ctx.deposits, deposit_id);
        }
    }
}

/// A burn from an account that the caller does not own is refused, whether
/// or not the caller is the admin or a minter; where the amount and the
/// token pass, it is refused as unauthorized.
pub proof fn law_burn_needs_the_owner(ctx: BurnForPolygonView, amount: u64)
    requires
        ctx.user_token_account.owner != ctx.user,
    ensures
        ctx.refusal(amount) is Some,
        amount > 0 && ctx.user_token_account.mint == ctx.config.gift_mint ==> ctx.refusal(amount)
            == Some(BridgeError::Unauthorized),
{
}

/// The right to burn does not depend on who is admin or minter: any owner of
/// an account of the wrapped token may burn from it.
pub proof fn law_any_holder_may_burn(ctx: BurnForPolygonView, amount: u64)
    requires
        amount > 0,
        ctx.user_token_account.mint == ctx.config.gift_mint,
        ctx.user_token_account.owner == ctx.user,
    ensures
        ctx.refusal(amount) is None,
{
}

/// An amount of zero is refused as such by the mint and by the burn, before
/// anything else is looked at, and leaves no record.
pub proof fn law_zero_amount_is_refused(
    mint: MintFromPolygonView,
    deposit_id: [u8; 32],
    burn: BurnForPolygonView,
)
    ensures
        mint.refusal(0, deposit_id) == Some(BridgeError::ZeroAmount),
        mint.after_mint(0, deposit_id) == mint,
        burn.refusal(0) == Some(BridgeError::ZeroAmount),
{
}

/// The minting authority is a function of the configuration's address and
/// the program alone: two derivations from the same pair give the same
/// identity and the same bump seed.
pub proof fn law_authority_is_determined(a: MintAuthorityView, b: MintAuthorityView)
    ensures
        a.is_derived() && b.is_derived() && a.config_key == b.config_key && a.program_id
            == b.program_id ==> a == b,
{
    if a.is_derived() && b.is_derived() && a.config_key == b.config_key && a.program_id
        == b.program_id {
        Identity::lemma_same_bytes(a.address, b.address);
    }
}

/// A sequence that does not hold `minter` is its own filter by `other_than`.
proof fn lemma_filter_of_absent(minters: Seq<Identity>, minter: Identity)
    requires
        !minters.contains(minter),
    ensures
        minters.filter(other_than(minter)) == minters,
    decreases minters.len(),
{
    reveal(Seq::filter);
    if minters.len() > 0 {
        let front = minters.drop_last();
        assert forall|i: int| 0 <= i < front.len() implies front[i] != minter by {
            assert(minters[i] == front[i]);
            assert(minters.contains(minters[i]));
        }
        lemma_filter_of_absent(front, minter);
        assert(minters.contains(minters.last()));
        assert(front.push(minters.last()) == minters);
    }
}

/// The record that a claim writes marks its deposit as claimed.
proof fn lemma_claim_is_recorded(records: Seq<ProcessedDeposit>, deposit_id: [u8; 32])
    ensures
        is_claimed(records.push(claim_record(deposit_id)), deposit_id),
{
    let after = records.push(claim_record(deposit_id));
    assert(after[records.len() as int] == claim_record(deposit_id));
}

} // verus!
