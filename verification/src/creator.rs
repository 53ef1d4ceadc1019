//! Per-collection fee settings, set by the admins or by the collection's admin.
use vstd::prelude::*;

use crate::auction::{Address, CollectionExtraFeesConfig, CollectionFeeConfig, TokenId, ZERO_ADDRESS};
use crate::common::endpoint_matches;
use crate::errors::MarketError;
use crate::events::{Action, Event, EventsModule};
use crate::helpers::{is_admin, HelpersModule, Step};
use crate::storage::{ChainContext, Marketplace, StorageModule, Store};

verus! {

/// The settings of a collection that has none yet: nothing reversed, no
/// custom royalties, no extra fee, no admin.
pub open spec fn default_config() -> CollectionFeeConfig {
    CollectionFeeConfig {
        reverse_cut_fees: false,
        reverse_royalties: false,
        custom_royalties: false,
        min_royalties: 0,
        max_royalties: 0,
        extra_fees: CollectionExtraFeesConfig { amount: 0, address: ZERO_ADDRESS },
        admin: ZERO_ADDRESS,
    }
}

/// Records `config` for `collection` and logs it.
pub open spec fn saved_config(s: Store, collection: TokenId, config: CollectionFeeConfig) -> Step {
    Ok((
        Store { collection_config: s.collection_config.insert(collection, config), ..s },
        seq![Action::Event(Event::CollectionConfig { collection, config })],
    ))
}

/// Who may change the settings of `collection`: an admin when it has none
/// yet, else an admin or the collection's admin.
pub open spec fn may_configure(s: Store, ctx: ChainContext, collection: TokenId) -> bool {
    if s.collection_config.contains_key(collection) {
        is_admin(s, ctx, Some(s.collection_config[collection].admin))
    } else {
        is_admin(s, ctx, None)
    }
}

/// `setCutFeesReverted`: an admin sets whether the buyer pays the marketplace fee.
pub open spec fn spec_set_cut_fees_reverted(s: Store, ctx: ChainContext, collection: TokenId, value: bool) -> Step {
    if !is_admin(s, ctx, None) {
        Err(MarketError::NotAdmin)
    } else if s.collection_config.contains_key(collection) {
        saved_config(s, collection, CollectionFeeConfig { reverse_cut_fees: value, ..s.collection_config[collection] })
    } else {
        saved_config(s, collection, CollectionFeeConfig { reverse_cut_fees: value, ..default_config() })
    }
}

/// `setRoyaltiesReverted`: sets whether the buyer pays the royalties.
pub open spec fn spec_set_royalties_reverted(s: Store, ctx: ChainContext, collection: TokenId, value: bool) -> Step {
    if !may_configure(s, ctx, collection) {
        Err(MarketError::NotAdmin)
    } else if s.collection_config.contains_key(collection) {
        saved_config(s, collection, CollectionFeeConfig { reverse_royalties: value, ..s.collection_config[collection] })
    } else {
        saved_config(s, collection, CollectionFeeConfig { reverse_royalties: value, ..default_config() })
    }
}

/// `setExtraFees`: sets the extra fee of a collection and who receives it.
pub open spec fn spec_set_extra_fees(s: Store, ctx: ChainContext, collection: TokenId, amount: u128, address: Address) -> Step {
    let extra = CollectionExtraFeesConfig { amount, address };
    if !may_configure(s, ctx, collection) {
        Err(MarketError::NotAdmin)
    } else if s.collection_config.contains_key(collection) {
        saved_config(s, collection, CollectionFeeConfig { extra_fees: extra, ..s.collection_config[collection] })
    } else {
        saved_config(s, collection, CollectionFeeConfig { extra_fees: extra, ..default_config() })
    }
}

/// `setCustomRoyalties`: sets the royalty bounds of a collection; a
/// collection without settings only gets the switch, with both bounds zero.
pub open spec fn spec_set_custom_royalties(
    s: Store,
    ctx: ChainContext,
    collection: TokenId,
    min: u128,
    max: u128,
    enabled: bool,
) -> Step {
    if min > max {
        Err(MarketError::MinRoyaltiesAboveMax)
    } else if !may_configure(s, ctx, collection) {
        Err(MarketError::NotAdmin)
    } else if s.collection_config.contains_key(collection) {
        saved_config(
            s,
            collection,
            CollectionFeeConfig {
                min_royalties: min,
                max_royalties: max,
                custom_royalties: enabled,
                ..s.collection_config[collection]
            },
        )
    } else {
        saved_config(s, collection, CollectionFeeConfig { custom_royalties: enabled, ..default_config() })
    }
}

/// `setConfigAdmin`: an admin names the admin of a collection.
pub open spec fn spec_set_config_admin(s: Store, ctx: ChainContext, collection: TokenId, admin: Address) -> Step {
    if !is_admin(s, ctx, None) {
        Err(MarketError::NotAdmin)
    } else if s.collection_config.contains_key(collection) {
        saved_config(s, collection, CollectionFeeConfig { admin, ..s.collection_config[collection] })
    } else {
        saved_config(s, collection, CollectionFeeConfig { admin, ..default_config() })
    }
}

/// The fee settings of collections.
pub trait CreatorModule: StorageModule + HelpersModule + EventsModule {
    /// See `spec_set_cut_fees_reverted`.
    fn set_cut_fees_reverted(&mut self, ctx: &ChainContext, token_id: TokenId, value: bool) -> (r: Result<Vec<Action>, MarketError>)
        requires
            old(self).inv(),
        ensures
            final(self).inv(),
            endpoint_matches(spec_set_cut_fees_reverted(old(self).store(), *ctx, token_id, value), r, final(self).store()),
            r is Err ==> final(self).store() == old(self).store(),
    ;

    /// See `spec_set_royalties_reverted`.
    fn set_royalties_reverted(&mut self, ctx: &ChainContext, token_id: TokenId, value: bool) -> (r: Result<Vec<Action>, MarketError>)
        requires
            old(self).inv(),
        ensures
            final(self).inv(),
            endpoint_matches(spec_set_royalties_reverted(old(self).store(), *ctx, token_id, value), r, final(self).store()),
            r is Err ==> final(self).store() == old(self).store(),
    ;

    /// See `spec_set_extra_fees`.
    fn set_extra_fees(&mut self, ctx: &ChainContext, token_id: TokenId, amount: u128, address: Address) -> (r: Result<
        Vec<Action>,
        MarketError,
    >)
        requires
            old(self).inv(),
        ensures
            final(self).inv(),
            endpoint_matches(spec_set_extra_fees(old(self).store(), *ctx, token_id, amount, address), r, final(self).store()),
            r is Err ==> final(self).store() == old(self).store(),
    ;

    /// See `spec_set_custom_royalties`.
    fn set_custom_royalties(&mut self, ctx: &ChainContext, token_id: TokenId, min: u128, max: u128, enabled: bool) -> (r:
        Result<Vec<Action>, MarketError>)
        requires
            old(self).inv(),
        ensures
            final(self).inv(),
            endpoint_matches(spec_set_custom_royalties(old(self).store(), *ctx, token_id, min, max, enabled), r, final(self).store()),
            r is Err ==> final(self).store() == old(self).store(),
    ;

    /// See `spec_set_config_admin`.
    fn set_config_admin(&mut self, ctx: &ChainContext, token_id: TokenId, admin: Address) -> (r: Result<Vec<Action>, MarketError>)
        requires
            old(self).inv(),
        ensures
            final(self).inv(),
            endpoint_matches(spec_set_config_admin(old(self).store(), *ctx, token_id, admin), r, final(self).store()),
            r is Err ==> final(self).store() == old(self).store(),
    ;
}

impl Marketplace {
    /// The settings of a collection that has none yet (see `default_config`).
    fn new_config(&self) -> (r: CollectionFeeConfig)
        ensures
            r == default_config(),
    {
        CollectionFeeConfig {
            reverse_cut_fees: false,
            reverse_royalties: false,
            custom_royalties: false,
            min_royalties: 0,
            max_royalties: 0,
            extra_fees: CollectionExtraFeesConfig { amount: 0, address: ZERO_ADDRESS },
            admin: ZERO_ADDRESS,
        }
    }

    /// Records and logs the settings of a collection (see `saved_config`).
    fn save_config(&mut self, collection: TokenId, config: CollectionFeeConfig) -> (r: Vec<Action>)
        requires
            old(self).inv(),
        ensures
            final(self).inv(),
            saved_config(old(self).store(), collection, config) == Ok::<(Store, Seq<Action>), MarketError>((final(self).store(), r@)),
    {
        self.collection_config.insert(collection, config);
        let ev = self.emit_collection_config(collection, &config);
        let mut acts: Vec<Action> = Vec::new();
        acts.push(Action::Event(ev));
        assert(acts@ =~= seq![Action::Event(Event::CollectionConfig { collection, config })]);
        assert(self.store() =~= Store { collection_config: old(self).store().collection_config.insert(collection, config), ..old(self).store() });
        acts
    }

    /// Fails unless the caller may change the settings of `collection` (see `may_configure`).
    fn require_configurer(&self, ctx: &ChainContext, collection: TokenId) -> (r: Result<(), MarketError>)
        requires
            self.inv(),
        ensures
            r is Ok <==> may_configure(self.store(), *ctx, collection),
            r is Err ==> r == Err::<(), MarketError>(MarketError::NotAdmin),
    {
        match self.collection_config.get(&collection) {
            Some(c) => self.require_admin(ctx, Some(c.admin)),
            None => self.require_admin(ctx, None),
        }
    }
}

impl CreatorModule for Marketplace {
    fn set_cut_fees_reverted(&mut self, ctx: &ChainContext, token_id: TokenId, value: bool) -> (r: Result<Vec<Action>, MarketError>) {
        let saved = self.duplicate();
        let r = self.attempt_set_cut_fees_reverted(ctx, token_id, value);
        if r.is_err() {
            *self = saved;
        }
        r
    }

    fn set_royalties_reverted(&mut self, ctx: &ChainContext, token_id: TokenId, value: bool) -> (r: Result<Vec<Action>, MarketError>) {
        let saved = self.duplicate();
        let r = self.attempt_set_royalties_reverted(ctx, token_id, value);
        if r.is_err() {
            *self = saved;
        }
        r
    }

    fn set_extra_fees(&mut self, ctx: &ChainContext, token_id: TokenId, amount: u128, address: Address) -> (r: Result<
        Vec<Action>,
        MarketError,
    >) {
        let saved = self.duplicate();
        let r = self.attempt_set_extra_fees(ctx, token_id, amount, address);
        if r.is_err() {
            *self = saved;
        }
        r
    }

    fn set_custom_royalties(&mut self, ctx: &ChainContext, token_id: TokenId, min: u128, max: u128, enabled: bool) -> (r:
        Result<Vec<Action>, MarketError>) {
        let saved = self.duplicate();
        let r = self.attempt_set_custom_royalties(ctx, token_id, min, max, enabled);
        if r.is_err() {
            *self = saved;
        }
        r
    }

    fn set_config_admin(&mut self, ctx: &ChainContext, token_id: TokenId, admin: Address) -> (r: Result<Vec<Action>, MarketError>) {
        let saved = self.duplicate();
        let r = self.attempt_set_config_admin(ctx, token_id, admin);
        if r.is_err() {
            *self = saved;
        }
        r
    }
}

impl Marketplace {
    /// The steps of `set_cut_fees_reverted`; a failure may leave the storage part-way.
    fn attempt_set_cut_fees_reverted(&mut self, ctx: &ChainContext, token_id: TokenId, value: bool) -> (r: Result<Vec<Action>, MarketError>)
        requires
            old(self).inv(),
        ensures
            final(self).inv(),
            endpoint_matches(spec_set_cut_fees_reverted(old(self).store(), *ctx, token_id, value), r, final(self).store()),
    {
        self.require_admin(ctx, None)?;
        let config = match self.collection_config.get(&token_id) {
            Some(c) => CollectionFeeConfig { reverse_cut_fees: value, ..*c },
            None => CollectionFeeConfig { reverse_cut_fees: value, ..self.new_config() },
        };
        Ok(self.save_config(token_id, config))
    }

    /// The steps of `set_royalties_reverted`; a failure may leave the storage part-way.
    fn attempt_set_royalties_reverted(&mut self, ctx: &ChainContext, token_id: TokenId, value: bool) -> (r: Result<Vec<Action>, MarketError>)
        requires
            old(self).inv(),
        ensures
            final(self).inv(),
            endpoint_matches(spec_set_royalties_reverted(old(self).store(), *ctx, token_id, value), r, final(self).store()),
    {
        self.require_configurer(ctx, token_id)?;
        let config = match self.collection_config.get(&token_id) {
            Some(c) => CollectionFeeConfig { reverse_royalties: value, ..*c },
            None => CollectionFeeConfig { reverse_royalties: value, ..self.new_config() },
        };
        Ok(self.save_config(token_id, config))
    }

    /// The steps of `set_extra_fees`; a failure may leave the storage part-way.
    fn attempt_set_extra_fees(&mut self, ctx: &ChainContext, token_id: TokenId, amount: u128, address: Address) -> (r: Result<
        Vec<Action>,
        MarketError,
    >)
        requires
            old(self).inv(),
        ensures
            final(self).inv(),
            endpoint_matches(spec_set_extra_fees(old(self).store(), *ctx, token_id, amount, address), r, final(self).store()),
    {
        self.require_configurer(ctx, token_id)?;
        let extra = CollectionExtraFeesConfig { amount, address };
        let config = match self.collection_config.get(&token_id) {
            Some(c) => CollectionFeeConfig { extra_fees: extra, ..*c },
            None => CollectionFeeConfig { extra_fees: extra, ..self.new_config() },
        };
        Ok(self.save_config(token_id, config))
    }

    /// The steps of `set_custom_royalties`; a failure may leave the storage part-way.
    fn attempt_set_custom_royalties(&mut self, ctx: &ChainContext, token_id: TokenId, min: u128, max: u128, enabled: bool) -> (r:
        Result<Vec<Action>, MarketError>)
        requires
            old(self).inv(),
        ensures
            final(self).inv(),
            endpoint_matches(spec_set_custom_royalties(old(self).store(), *ctx, token_id, min, max, enabled), r, final(self).store()),
    {
        if min > max {
            return Err(MarketError::MinRoyaltiesAboveMax);
        }
        self.require_configurer(ctx, token_id)?;
        let config = match self.collection_config.get(&token_id) {
            Some(c) => CollectionFeeConfig { min_royalties: min, max_royalties: max, custom_royalties: enabled, ..*c },
            None => CollectionFeeConfig { custom_royalties: enabled, ..self.new_config() },
        };
        Ok(self.save_config(token_id, config))
    }

    /// The steps of `set_config_admin`; a failure may leave the storage part-way.
    fn attempt_set_config_admin(&mut self, ctx: &ChainContext, token_id: TokenId, admin: Address) -> (r: Result<Vec<Action>, MarketError>)
        requires
            old(self).inv(),
        ensures
            final(self).inv(),
            endpoint_matches(spec_set_config_admin(old(self).store(), *ctx, token_id, admin), r, final(self).store()),
    {
        self.require_admin(ctx, None)?;
        let config = match self.collection_config.get(&token_id) {
            Some(c) => CollectionFeeConfig { admin, ..*c },
            None => CollectionFeeConfig { admin, ..self.new_config() },
        };
        Ok(self.save_config(token_id, config))
    }
}

} // verus!
