use vstd::prelude::*;
use crate::error::BridgeError;
use crate::identity::Identity;

verus! {

/// Largest number of minters a configuration can name besides its admin.
pub const MAX_EXTRA_MINTERS: usize = 16;

/// The bridge's configuration record. There is one per deployment.
#[derive(Clone, Debug, PartialEq, Eq)]
pub struct Config {
    /// The only identity that may change the set of minters.
    pub admin: Identity,
    /// The wrapped token that this bridge mints and burns.
    pub gift_mint: Identity,
    /// The bridge contract on the home chain.
    pub polygon_bridge: [u8; 20],
    /// Identities that may mint besides the admin, in the order they were added.
    pub extra_minters: Vec<Identity>,
}

/// What a `Config` holds, as mathematical values.
pub struct ConfigView {
    pub admin: Identity,
    pub gift_mint: Identity,
    pub polygon_bridge: [u8; 20],
    pub extra_minters: Seq<Identity>,
}

impl View for Config {
    type V = ConfigView;

    open spec fn view(&self) -> ConfigView {
        ConfigView {
            admin: self.admin,
            gift_mint: self.gift_mint,
            polygon_bridge: self.polygon_bridge,
            extra_minters: self.extra_minters@,
        }
    }
}

/// The test that every identity but `minter` passes.
pub open spec fn other_than(minter: Identity) -> spec_fn(Identity) -> bool {
    |m: Identity| m != minter
}

impl ConfigView {
    /// The minter set respects its bound and names nobody twice.
    pub open spec fn well_formed(self) -> bool {
        &&& self.extra_minters.len() <= MAX_EXTRA_MINTERS
        &&& self.extra_minters.no_duplicates()
    }

    /// `who` may mint: the admin always, and whoever is in the minter set.
    pub open spec fn authorizes(self, who: Identity) -> bool {
        who == self.admin || self.extra_minters.contains(who)
    }

    /// The configuration with `minter` appended to the minter set.
    pub open spec fn with_minter(self, minter: Identity) -> ConfigView {
        ConfigView { extra_minters: self.extra_minters.push(minter), ..self }
    }

    /// The configuration with every occurrence of `minter` taken out of the
    /// minter set, the others keeping their order.
    pub open spec fn without_minter(self, minter: Identity) -> ConfigView {
        ConfigView {
            extra_minters: self.extra_minters.filter(other_than(minter)),
            ..self
        }
    }

    /// The outcome of `caller` asking to add `new_minter`.
    pub open spec fn add_minter(self, caller: Identity, new_minter: Identity) -> Result<
        ConfigView,
        BridgeError,
    > {
        if caller != self.admin {
            Err(BridgeError::Unauthorized)
        } else if self.extra_minters.contains(new_minter) {
            Ok(self)
        } else if self.extra_minters.len() >= MAX_EXTRA_MINTERS {
            Err(BridgeError::CapacityExceeded)
        } else {
            Ok(self.with_minter(new_minter))
        }
    }

    /// The outcome of `caller` asking to remove `minter`.
    pub open spec fn remove_minter(self, caller: Identity, minter: Identity) -> Result<
        ConfigView,
        BridgeError,
    > {
        if caller != self.admin {
            Err(BridgeError::Unauthorized)
        } else {
            Ok(self.without_minter(minter))
        }
    }
}

impl Config {
    /// Whether `who` is in the minter set.
    pub fn is_extra_minter(&self, who: &Identity) -> (found: bool)
        ensures
            found == self@.extra_minters.contains(*who),
    {
        let mut i: usize = 0;
        while i < self.extra_minters.len()
            invariant
                i <= self.extra_minters.len(),
                forall|j: int| 0 <= j < i ==> self.extra_minters@[j] != *who,
            decreases self.extra_minters.len() - i,
        {
            if self.extra_minters[i] == *who {
                return true;
            }
            i += 1;
        }
        false
    }

    /// Whether `who` may mint.
    pub fn is_authorized(&self, who: &Identity) -> (allowed: bool)
        ensures
            allowed == self@.authorizes(*who),
    {
        self.admin == *who || self.is_extra_minter(who)
    }
}

/// What `initialize_config` is given besides its arguments.
#[derive(Clone, Copy, Debug, PartialEq, Eq)]
pub struct InitializeConfig {
    /// Who deploys the bridge, and becomes its admin.
    pub admin: Identity,
}

/// What `add_minter` and `remove_minter` work on.
#[derive(Clone, Debug, PartialEq, Eq)]
pub struct UpdateMinters {
    /// The configuration to change.
    pub config: Config,
    /// Who asks for the change.
    pub admin: Identity,
}

/// Creates the configuration record of a bridge: `ctx.admin` becomes the
/// admin, and nobody else may mint yet.
pub fn initialize_config(ctx: InitializeConfig, gift_mint: Identity, polygon_bridge: [u8; 20]) -> (config: Config)
    ensures
        config@ == (ConfigView {
            admin: ctx.admin,
            gift_mint,
            polygon_bridge,
            extra_minters: Seq::empty(),
        }),
        config@.well_formed(),
{
    Config { admin: ctx.admin, gift_mint, polygon_bridge, extra_minters: Vec::new() }
}

/// Lets the admin add `new_minter` to the minter set. Adding a minter that is
/// already there changes nothing and succeeds.
pub fn add_minter(ctx: &mut UpdateMinters, new_minter: Identity) -> (result: Result<(), BridgeError>)
    ensures
        final(ctx).admin == old(ctx).admin,
        match old(ctx).config@.add_minter(old(ctx).admin, new_minter) {
            Ok(config) => result is Ok && final(ctx).config@ == config,
            Err(error) => result == Err::<(), BridgeError>(error) && *final(ctx) == *old(ctx),
        },
        old(ctx).config@.well_formed() ==> final(ctx).config@.well_formed(),
{
    if !(ctx.config.admin == ctx.admin) {
        return Err(BridgeError::Unauthorized);
    }
    if ctx.config.is_extra_minter(&new_minter) {
        return Ok(());
    }
    if ctx.config.extra_minters.len() >= MAX_EXTRA_MINTERS {
        return Err(BridgeError::CapacityExceeded);
    }
    ctx.config.extra_minters.push(new_minter);
    proof {
        lemma_push_fresh_keeps_distinct(old(ctx).config@.extra_minters, new_minter);
    }
    Ok(())
}

/// Lets the admin take `minter` out of the minter set. Removing a minter that
/// is not there changes nothing and succeeds.
pub fn remove_minter(ctx: &mut UpdateMinters, minter: Identity) -> (result: Result<(), BridgeError>)
    ensures
        final(ctx).admin == old(ctx).admin,
        match old(ctx).config@.remove_minter(old(ctx).admin, minter) {
            Ok(config) => result is Ok && final(ctx).config@ == config,
            Err(error) => result == Err::<(), BridgeError>(error) && *final(ctx) == *old(ctx),
        },
        old(ctx).config@.well_formed() ==> final(ctx).config@.well_formed(),
{
    if !(ctx.config.admin == ctx.admin) {
        return Err(BridgeError::Unauthorized);
    }
    let ghost before = ctx.config.extra_minters@;
    let ghost keep = other_than(minter);
    let mut kept: Vec<Identity> = Vec::new();
    let mut i: usize = 0;
    while i < ctx.config.extra_minters.len()
        invariant
            i <= ctx.config.extra_minters.len(),
            ctx.config.extra_minters@ == before,
            keep == other_than(minter),
            kept@ == before.take(i as int).filter(keep),
        decreases ctx.config.extra_minters.len() - i,
    {
        let candidate = ctx.config.extra_minters[i];
        proof {
            lemma_filter_take_step(before, keep, i as int);
        }
        if !(candidate == minter) {
            kept.push(candidate);
        }
        i += 1;
    }
    proof {
        assert(before.take(i as int) == before);
        lemma_filter_keeps_distinct(before, keep);
    }
    ctx.config.extra_minters = kept;
    Ok(())
}

/// Filtering one element more of a sequence either appends that element or
/// changes nothing.
proof fn lemma_filter_take_step<A>(s: Seq<A>, keep: spec_fn(A) -> bool, i: int)
    requires
        0 <= i < s.len(),
    ensures
        s.take(i + 1).filter(keep) == if keep(s[i]) {
            s.take(i).filter(keep).push(s[i])
        } else {
            s.take(i).filter(keep)
        },
{
    reveal(Seq::filter);
    assert(s.take(i + 1).drop_last() == s.take(i));
}

/// A sequence without repetition stays so when a new element is appended.
pub proof fn lemma_push_fresh_keeps_distinct<A>(s: Seq<A>, a: A)
    requires
        !s.contains(a),
    ensures
        s.no_duplicates() ==> s.push(a).no_duplicates(),
        s.push(a).len() == s.len() + 1,
{
    if s.no_duplicates() {
        assert forall|i: int, j: int|
            0 <= i < s.push(a).len() && 0 <= j < s.push(a).len() && i != j implies s.push(a)[i]
            != s.push(a)[j] by {
            if i < s.len() {
                assert(s.contains(s[i]));
            }
            if j < s.len() {
                assert(s.contains(s[j]));
            }
        }
    }
}

/// Filtering neither lengthens a sequence nor introduces a repetition.
pub proof fn lemma_filter_keeps_distinct<A>(s: Seq<A>, keep: spec_fn(A) -> bool)
    ensures
        s.filter(keep).len() <= s.len(),
        s.no_duplicates() ==> s.filter(keep).no_duplicates(),
        forall|a: A| s.filter(keep).contains(a) <==> s.contains(a) && keep(a),
    decreases s.len(),
{
    reveal(Seq::filter);
    if s.len() > 0 {
        let front = s.drop_last();
        lemma_filter_keeps_distinct(front, keep);
        assert forall|a: A| s.filter(keep).contains(a) <==> s.contains(a) && keep(a) by {
            if s.contains(a) {
                let i = choose|i: int| 0 <= i < s.len() && s[i] == a;
                if i < s.len() - 1 {
                    assert(front[i] == a);
                    assert(front.contains(a));
                } else {
                    assert(a == s.last());
                }
            }
            if front.contains(a) {
                let i = choose|i: int| 0 <= i < front.len() && front[i] == a;
                assert(s[i] == a);
            }
            if keep(s.last()) {
                let out = front.filter(keep).push(s.last());
                assert(out[out.len() - 1] == s.last());
                if front.filter(keep).contains(a) {
                    let i = choose|i: int| 0 <= i < front.filter(keep).len() && front.filter(keep)[i] == a;
                    assert(out[i] == a);
                }
            }
        }
        if s.no_duplicates() {
            assert(front.no_duplicates());
            if keep(s.last()) {
                if front.contains(s.last()) {
                    let i = choose|i: int| 0 <= i < front.len() && front[i] == s.last();
                    assert(s[i] == s[s.len() - 1]);
                }
                lemma_push_fresh_keeps_distinct(front.filter(keep), s.last());
            }
        }
    }
}

} // verus!
