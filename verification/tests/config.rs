use interra_order_solana::{
    change_config, create_config, initialize, update_config, Address, ConfigUpdated, CustomError,
    GlobalConfig, Initialize, Initialized, Ledger, UpdateConfig,
};

fn who(n: u8) -> Address {
    Address::new([n; 32])
}

#[test]
fn initialize_reports_what_it_created() {
    let mut ledger = Ledger::new(who(200));
    assert_eq!(ledger.config(), None);
    assert_eq!(ledger.program_id(), who(200));
    let event = initialize(&mut ledger, &Initialize { signer: who(1) }, 0, who(2));
    assert_eq!(
        event,
        Ok(Initialized { owner: who(1), platform_fee: 0, treasury: who(2), paused: false })
    );
}

#[test]
fn initialize_twice_fails() {
    let mut ledger = Ledger::new(who(200));
    initialize(&mut ledger, &Initialize { signer: who(1) }, 100, who(2)).unwrap();
    let before = ledger.config();
    let again = initialize(&mut ledger, &Initialize { signer: who(3) }, 5, who(4));
    assert_eq!(again, Err(CustomError::AccountAlreadyExists));
    let even_with_bad_fee = initialize(&mut ledger, &Initialize { signer: who(3) }, 10_000, who(4));
    assert_eq!(even_with_bad_fee, Err(CustomError::AccountAlreadyExists));
    assert_eq!(ledger.config(), before);
}

#[test]
fn initialize_refuses_fee_of_ten_thousand() {
    let mut ledger = Ledger::new(who(200));
    let refused = initialize(&mut ledger, &Initialize { signer: who(1) }, 10_000, who(2));
    assert_eq!(refused, Err(CustomError::InvalidConfiguration));
    assert_eq!(ledger.config(), None);
    let highest = initialize(&mut ledger, &Initialize { signer: who(1) }, 9_999, who(2));
    assert!(highest.is_ok());
}

#[test]
fn update_before_initialize_fails() {
    let mut ledger = Ledger::new(who(200));
    let r = update_config(&mut ledger, &UpdateConfig { owner: who(1) }, who(1), 1, who(1), false);
    assert_eq!(r, Err(CustomError::AccountNotFound));
}

#[test]
fn owner_replaces_all_four_fields() {
    let mut ledger = Ledger::new(who(200));
    initialize(&mut ledger, &Initialize { signer: who(1) }, 100, who(2)).unwrap();
    let r = update_config(&mut ledger, &UpdateConfig { owner: who(1) }, who(5), 300, who(6), true);
    assert_eq!(
        r,
        Ok(ConfigUpdated { owner: who(5), platform_fee: 300, treasury: who(6), paused: true })
    );
    let config = ledger.config().unwrap();
    assert_eq!(config.owner, who(5));
    assert_eq!(config.platform_fee, 300);
    assert_eq!(config.treasury, who(6));
    assert!(config.paused);
    assert!(config.is_paused());
    assert_eq!(config.reserved, [0u8; 128]);

    let old_owner = update_config(&mut ledger, &UpdateConfig { owner: who(1) }, who(1), 1, who(1), false);
    assert_eq!(old_owner, Err(CustomError::Unauthorized));
    let new_owner = update_config(&mut ledger, &UpdateConfig { owner: who(5) }, who(5), 1, who(6), false);
    assert!(new_owner.is_ok());
}

#[test]
fn update_refuses_fee_of_ten_thousand() {
    let mut ledger = Ledger::new(who(200));
    initialize(&mut ledger, &Initialize { signer: who(1) }, 100, who(2)).unwrap();
    let before = ledger.config();
    let r = update_config(&mut ledger, &UpdateConfig { owner: who(1) }, who(5), 10_000, who(6), true);
    assert_eq!(r, Err(CustomError::InvalidConfiguration));
    assert_eq!(ledger.config(), before);
    let stranger = update_config(&mut ledger, &UpdateConfig { owner: who(9) }, who(5), 10_000, who(6), true);
    assert_eq!(stranger, Err(CustomError::Unauthorized));
}

#[test]
fn create_and_change_config_without_a_ledger() {
    let made = create_config(&who(1), 42, who(2)).unwrap();
    assert_eq!(
        made,
        GlobalConfig { owner: who(1), platform_fee: 42, treasury: who(2), paused: false, reserved: [0; 128] }
    );
    assert_eq!(create_config(&who(1), 10_000, who(2)), Err(CustomError::InvalidConfiguration));
    assert_eq!(create_config(&who(1), u16::MAX, who(2)), Err(CustomError::InvalidConfiguration));

    let mut kept = made;
    kept.reserved[5] = 9;
    let changed = change_config(&kept, &who(1), who(3), 7, who(4), true).unwrap();
    assert_eq!(changed.owner, who(3));
    assert_eq!(changed.platform_fee, 7);
    assert_eq!(changed.treasury, who(4));
    assert!(changed.paused);
    assert_eq!(changed.reserved, kept.reserved);
    assert_eq!(change_config(&kept, &who(2), who(3), 7, who(4), true), Err(CustomError::Unauthorized));
    assert_eq!(
        change_config(&kept, &who(1), who(3), 10_000, who(4), true),
        Err(CustomError::InvalidConfiguration)
    );
}

#[test]
fn sizes_of_the_stored_records() {
    assert_eq!(GlobalConfig::SIZE, 195);
    assert_eq!(interra_order_solana::LimitOrder::SIZE, 193);
}

#[test]
fn every_error_has_its_message() {
    assert_eq!(CustomError::InvalidConfiguration.message(), "Platform fee must be between 0 and 10000.");
    assert_eq!(CustomError::InvalidParameter.message(), "Invalid parameter");
    assert_eq!(CustomError::ExpiryEarlier.message(), "Expiry time must be in the future.");
    assert_eq!(CustomError::Overflow.message(), "math over flow.");
    assert_eq!(CustomError::InsufficientFunds.message(), "Insufficient funds for the operation.");
    assert_eq!(CustomError::Unauthorized.message(), "Only the sender or the owner may do this.");
    assert_eq!(CustomError::InvalidRefundReceiver.message(), "Invalid refund receiver.");
    assert_eq!(CustomError::AccountAlreadyExists.message(), "The account exists already.");
    assert_eq!(CustomError::AccountNotFound.message(), "The account does not exist.");
}
