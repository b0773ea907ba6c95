use gift_bridge::{
    add_minter, initialize_config, remove_minter, BridgeError, Config, Identity, InitializeConfig,
    UpdateMinters, MAX_EXTRA_MINTERS,
};

fn id(tag: u8) -> Identity {
    Identity::new([tag; 32])
}

fn fresh_config() -> Config {
    initialize_config(InitializeConfig { admin: id(1) }, id(2), [3u8; 20])
}

fn as_admin(config: Config) -> UpdateMinters {
    let admin = config.admin;
    UpdateMinters { config, admin }
}

#[test]
fn initialize_records_admin_token_and_home_bridge() {
    let config = fresh_config();
    assert_eq!(config.admin, id(1));
    assert_eq!(config.gift_mint, id(2));
    assert_eq!(config.polygon_bridge, [3u8; 20]);
    assert!(config.extra_minters.is_empty());
}

#[test]
fn capacity_is_sixteen() {
    assert_eq!(MAX_EXTRA_MINTERS, 16);
}

#[test]
fn admin_is_authorized_without_being_listed() {
    let config = fresh_config();
    assert!(config.is_authorized(&id(1)));
    assert!(!config.is_extra_minter(&id(1)));
    assert!(!config.is_authorized(&id(9)));
}

#[test]
fn admin_adds_minters_in_order() {
    let mut ctx = as_admin(fresh_config());
    assert_eq!(add_minter(&mut ctx, id(10)), Ok(()));
    assert_eq!(add_minter(&mut ctx, id(11)), Ok(()));
    assert_eq!(add_minter(&mut ctx, id(12)), Ok(()));
    assert_eq!(ctx.config.extra_minters, vec![id(10), id(11), id(12)]);
    assert!(ctx.config.is_authorized(&id(11)));
    assert!(ctx.config.is_extra_minter(&id(12)));
    assert_eq!(ctx.admin, id(1));
}

#[test]
fn adding_a_present_minter_changes_nothing() {
    let mut ctx = as_admin(fresh_config());
    assert_eq!(add_minter(&mut ctx, id(10)), Ok(()));
    let before = ctx.clone();
    assert_eq!(add_minter(&mut ctx, id(10)), Ok(()));
    assert_eq!(ctx, before);
}

#[test]
fn add_minter_by_another_caller_is_unauthorized() {
    let mut ctx = UpdateMinters { config: fresh_config(), admin: id(9) };
    let before = ctx.clone();
    assert_eq!(add_minter(&mut ctx, id(10)), Err(BridgeError::Unauthorized));
    assert_eq!(ctx, before);
}

#[test]
fn a_minter_is_not_an_admin() {
    let mut ctx = as_admin(fresh_config());
    assert_eq!(add_minter(&mut ctx, id(10)), Ok(()));
    let mut by_minter = UpdateMinters { config: ctx.config.clone(), admin: id(10) };
    assert_eq!(add_minter(&mut by_minter, id(11)), Err(BridgeError::Unauthorized));
    assert_eq!(remove_minter(&mut by_minter, id(10)), Err(BridgeError::Unauthorized));
    assert_eq!(by_minter.config, ctx.config);
}

#[test]
fn seventeenth_minter_exceeds_capacity() {
    let mut ctx = as_admin(fresh_config());
    for tag in 0..16u8 {
        assert_eq!(add_minter(&mut ctx, id(100 + tag)), Ok(()));
    }
    assert_eq!(ctx.config.extra_minters.len(), 16);
    let before = ctx.clone();
    assert_eq!(add_minter(&mut ctx, id(200)), Err(BridgeError::CapacityExceeded));
    assert_eq!(ctx, before);
}

#[test]
fn a_present_minter_is_accepted_at_capacity() {
    let mut ctx = as_admin(fresh_config());
    for tag in 0..16u8 {
        assert_eq!(add_minter(&mut ctx, id(100 + tag)), Ok(()));
    }
    let before = ctx.clone();
    assert_eq!(add_minter(&mut ctx, id(107)), Ok(()));
    assert_eq!(ctx, before);
}

#[test]
fn room_is_made_by_a_removal() {
    let mut ctx = as_admin(fresh_config());
    for tag in 0..16u8 {
        assert_eq!(add_minter(&mut ctx, id(100 + tag)), Ok(()));
    }
    assert_eq!(remove_minter(&mut ctx, id(100)), Ok(()));
    assert_eq!(add_minter(&mut ctx, id(200)), Ok(()));
    assert_eq!(ctx.config.extra_minters.len(), 16);
    assert_eq!(ctx.config.extra_minters[15], id(200));
}

#[test]
fn the_admin_can_be_added_as_a_minter() {
    let mut ctx = as_admin(fresh_config());
    assert_eq!(add_minter(&mut ctx, id(1)), Ok(()));
    assert_eq!(ctx.config.extra_minters, vec![id(1)]);
}

#[test]
fn remove_minter_keeps_the_order_of_the_others() {
    let mut ctx = as_admin(fresh_config());
    for tag in [10u8, 11, 12, 13] {
        assert_eq!(add_minter(&mut ctx, id(tag)), Ok(()));
    }
    assert_eq!(remove_minter(&mut ctx, id(11)), Ok(()));
    assert_eq!(ctx.config.extra_minters, vec![id(10), id(12), id(13)]);
    assert!(!ctx.config.is_authorized(&id(11)));
    assert!(ctx.config.is_authorized(&id(12)));
}

#[test]
fn remove_minter_takes_out_every_occurrence() {
    let config = Config {
        admin: id(1),
        gift_mint: id(2),
        polygon_bridge: [3u8; 20],
        extra_minters: vec![id(10), id(11), id(10), id(12), id(10)],
    };
    let mut ctx = as_admin(config);
    assert_eq!(remove_minter(&mut ctx, id(10)), Ok(()));
    assert_eq!(ctx.config.extra_minters, vec![id(11), id(12)]);
}

#[test]
fn removing_an_absent_minter_changes_nothing() {
    let mut ctx = as_admin(fresh_config());
    assert_eq!(add_minter(&mut ctx, id(10)), Ok(()));
    let before = ctx.clone();
    assert_eq!(remove_minter(&mut ctx, id(77)), Ok(()));
    assert_eq!(ctx, before);
    let mut empty = as_admin(fresh_config());
    assert_eq!(remove_minter(&mut empty, id(77)), Ok(()));
    assert!(empty.config.extra_minters.is_empty());
}

#[test]
fn remove_minter_by_another_caller_is_unauthorized() {
    let mut ctx = as_admin(fresh_config());
    assert_eq!(add_minter(&mut ctx, id(10)), Ok(()));
    let mut other = UpdateMinters { config: ctx.config.clone(), admin: id(9) };
    assert_eq!(remove_minter(&mut other, id(10)), Err(BridgeError::Unauthorized));
    assert_eq!(other.config, ctx.config);
}

#[test]
fn removing_the_admin_from_the_minters_leaves_the_admin_authorized() {
    let mut ctx = as_admin(fresh_config());
    assert_eq!(add_minter(&mut ctx, id(1)), Ok(()));
    assert_eq!(remove_minter(&mut ctx, id(1)), Ok(()));
    assert!(ctx.config.extra_minters.is_empty());
    assert!(ctx.config.is_authorized(&id(1)));
}
