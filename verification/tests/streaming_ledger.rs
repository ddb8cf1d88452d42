use grant_contracts::credentials::Credentials;
use grant_contracts::error::Error;
use grant_contracts::streaming::{
    appoint_arbiter, next_grant_id, DataKey, Grant, GrantContract, Transfer,
};

const T0: u64 = 1_700_000_000;

fn address(name: &str) -> String {
    String::from(name)
}

/// A ledger with one grant: `deposit` at `flow_rate` per second from `T0` on.
fn ledger_with_grant(deposit: i128, flow_rate: i128) -> GrantContract {
    let mut ledger = GrantContract::new();
    let id = ledger
        .create_grant(
            &Credentials::of("GADMIN"),
            address("GADMIN"),
            address("GGRANTEE"),
            deposit,
            flow_rate,
            address("CTOKEN"),
            T0,
        )
        .unwrap();
    assert_eq!(id, 1);
    ledger
}

#[test]
fn a_new_grant_holds_its_deposit() {
    let ledger = ledger_with_grant(5_000, 7);
    assert_eq!(
        ledger.get_grant(1),
        Ok(Grant {
            admin: address("GADMIN"),
            grantee: address("GGRANTEE"),
            flow_rate: 7,
            balance: 5_000,
            last_claim_time: T0,
            is_paused: false,
            token: address("CTOKEN"),
            dispute_active: false,
        })
    );
    assert_eq!(ledger.get_grant(0), Err(Error::NotFound));
    assert_eq!(ledger.get_grant(2), Err(Error::NotFound));
}

#[test]
fn grants_are_numbered_from_one() {
    let mut ledger = GrantContract::new();
    assert!(!ledger.has(&DataKey::Count));
    assert!(!ledger.has(&DataKey::Grant(1)));
    let admin = Credentials::of("GADMIN");
    for expected in 1..=5_u64 {
        let id = ledger.create_grant(
            &admin,
            address("GADMIN"),
            address("GGRANTEE"),
            expected as i128 * 100,
            1,
            address("CTOKEN"),
            T0 + expected,
        );
        assert_eq!(id, Ok(expected));
        assert!(ledger.has(&DataKey::Count));
        assert!(ledger.has(&DataKey::Grant(expected)));
        assert!(!ledger.has(&DataKey::Grant(expected + 1)));
    }
    assert!(!ledger.has(&DataKey::Grant(0)));
    assert_eq!(ledger.get_grant(3).unwrap().balance, 300);
    assert_eq!(ledger.get_grant(3).unwrap().last_claim_time, T0 + 3);

    // A creation that is refused mints no number.
    assert_eq!(
        ledger.create_grant(
            &Credentials::none(),
            address("GADMIN"),
            address("G"),
            1,
            1,
            address("C"),
            T0
        ),
        Err(Error::AuthorizationFailure)
    );
    assert!(!ledger.has(&DataKey::Grant(6)));
    assert_eq!(
        ledger.create_grant(&admin, address("GADMIN"), address("G"), 1, 1, address("C"), T0),
        Ok(6)
    );
}

#[test]
fn withdrawal_pays_what_has_flowed() {
    let rate: i128 = 25;
    let deposit: i128 = 1_000_000;
    let elapsed: u64 = 3_600;
    let mut ledger = ledger_with_grant(deposit, rate);
    let grantee = Credentials::of("GGRANTEE");

    let payout = ledger.withdraw(&grantee, 1, T0 + elapsed);
    assert_eq!(payout, Ok(90_000));
    let grant = ledger.get_grant(1).unwrap();
    assert_eq!(grant.balance, deposit - 90_000);
    assert_eq!(grant.last_claim_time, T0 + elapsed);

    // Withdrawing again at the same moment pays nothing and changes nothing.
    assert_eq!(ledger.withdraw(&grantee, 1, T0 + elapsed), Ok(0));
    assert_eq!(ledger.get_grant(1).unwrap(), grant);
}

#[test]
fn withdrawal_stops_at_the_balance() {
    let mut ledger = ledger_with_grant(1_000, 10);
    let grantee = Credentials::of("GGRANTEE");
    assert_eq!(ledger.withdraw(&grantee, 1, T0 + 30), Ok(300));
    assert_eq!(ledger.withdraw(&grantee, 1, T0 + 1_000), Ok(700));
    let grant = ledger.get_grant(1).unwrap();
    assert_eq!(grant.balance, 0);
    assert_eq!(grant.last_claim_time, T0 + 1_000);
    // An empty grant pays nothing, and the time of the last withdrawal stays.
    assert_eq!(ledger.withdraw(&grantee, 1, T0 + 2_000), Ok(0));
    assert_eq!(ledger.get_grant(1).unwrap(), grant);
}

#[test]
fn withdrawal_when_what_is_due_exceeds_the_integer_width() {
    let mut ledger = ledger_with_grant(1_000, i128::MAX);
    let grantee = Credentials::of("GGRANTEE");
    assert_eq!(ledger.withdraw(&grantee, 1, T0 + 2), Ok(1_000));
    assert_eq!(ledger.get_grant(1).unwrap().balance, 0);

    let mut ledger = ledger_with_grant(1_000, i128::MIN);
    assert_eq!(ledger.withdraw(&grantee, 1, T0 + 2), Ok(0));
    assert_eq!(ledger.get_grant(1).unwrap().balance, 1_000);
    assert_eq!(ledger.get_grant(1).unwrap().last_claim_time, T0);
}

#[test]
fn a_clock_that_goes_back_pays_nothing() {
    let mut ledger = ledger_with_grant(1_000, 10);
    let grantee = Credentials::of("GGRANTEE");
    assert_eq!(ledger.withdraw(&grantee, 1, T0 - 50), Ok(0));
    assert_eq!(ledger.withdraw(&grantee, 1, 0), Ok(0));
    let grant = ledger.get_grant(1).unwrap();
    assert_eq!(grant.balance, 1_000);
    assert_eq!(grant.last_claim_time, T0);
}

#[test]
fn a_rate_of_nothing_or_less_pays_nothing() {
    let grantee = Credentials::of("GGRANTEE");
    for rate in [0_i128, -1, -1_000_000] {
        let mut ledger = ledger_with_grant(1_000, rate);
        assert_eq!(ledger.withdraw(&grantee, 1, T0 + 100), Ok(0));
        let grant = ledger.get_grant(1).unwrap();
        assert_eq!(grant.balance, 1_000);
        assert_eq!(grant.last_claim_time, T0);
    }
}

#[test]
fn a_paused_grant_is_frozen() {
    let mut ledger = ledger_with_grant(1_000, 10);
    let admin = Credentials::of("GADMIN");
    let grantee = Credentials::of("GGRANTEE");
    assert_eq!(ledger.set_pause(&admin, 1, true), Ok(()));
    let paused = ledger.get_grant(1).unwrap();
    assert!(paused.is_paused);
    assert!(!paused.dispute_active);
    assert_eq!(ledger.withdraw(&grantee, 1, T0 + 10), Err(Error::Frozen));
    assert_eq!(ledger.get_grant(1).unwrap(), paused);
    assert_eq!(paused.balance, 1_000);
    assert_eq!(paused.last_claim_time, T0);

    assert_eq!(ledger.set_pause(&admin, 1, false), Ok(()));
    assert_eq!(ledger.withdraw(&grantee, 1, T0 + 10), Ok(100));
}

#[test]
fn a_grant_under_dispute_is_frozen() {
    let mut ledger = ledger_with_grant(1_000, 10);
    let admin = Credentials::of("GADMIN");
    let arbiter = Credentials::of("GARBITER");
    let grantee = Credentials::of("GGRANTEE");
    assert_eq!(ledger.set_arbiter(&admin, &address("GADMIN"), address("GARBITER")), Ok(()));
    assert_eq!(ledger.set_dispute_state(&arbiter, 1, true), Ok(()));
    let disputed = ledger.get_grant(1).unwrap();
    assert!(disputed.dispute_active);
    assert!(!disputed.is_paused);
    assert_eq!(ledger.withdraw(&grantee, 1, T0 + 10), Err(Error::Frozen));
    assert_eq!(ledger.get_grant(1).unwrap(), disputed);

    // The admin's pause flag is another flag: lifting it does not lift the dispute.
    assert_eq!(ledger.set_pause(&admin, 1, false), Ok(()));
    assert_eq!(ledger.withdraw(&grantee, 1, T0 + 10), Err(Error::Frozen));

    assert_eq!(ledger.set_dispute_state(&arbiter, 1, false), Ok(()));
    assert_eq!(ledger.withdraw(&grantee, 1, T0 + 10), Ok(100));
    assert_eq!(ledger.get_grant(1).unwrap().balance, 900);
}

#[test]
fn the_arbiter_is_appointed_once() {
    let mut ledger = GrantContract::new();
    let admin = Credentials::of("GADMIN");
    assert!(!ledger.has(&DataKey::Arbiter));
    assert_eq!(ledger.get_arbiter(), None);

    assert_eq!(
        ledger.set_arbiter(&Credentials::none(), &address("GADMIN"), address("GFIRST")),
        Err(Error::AuthorizationFailure)
    );
    assert_eq!(ledger.get_arbiter(), None);

    assert_eq!(ledger.set_arbiter(&admin, &address("GADMIN"), address("GFIRST")), Ok(()));
    assert!(ledger.has(&DataKey::Arbiter));
    assert_eq!(ledger.get_arbiter(), Some(address("GFIRST")));

    assert_eq!(
        ledger.set_arbiter(&admin, &address("GADMIN"), address("GSECOND")),
        Err(Error::AlreadyExists)
    );
    assert_eq!(ledger.get_arbiter(), Some(address("GFIRST")));
    assert_eq!(
        ledger.set_arbiter(&Credentials::of("GOTHER"), &address("GOTHER"), address("GFIRST")),
        Err(Error::AlreadyExists)
    );
    assert_eq!(ledger.get_arbiter(), Some(address("GFIRST")));
}

#[test]
fn only_the_arbiter_sets_the_dispute_flag() {
    let mut ledger = ledger_with_grant(1_000, 10);
    let admin = Credentials::of("GADMIN");
    // No arbiter in office: nobody can carry the arbiter's approval.
    assert_eq!(ledger.set_dispute_state(&admin, 1, true), Err(Error::AuthorizationFailure));
    assert_eq!(ledger.set_dispute_state(&admin, 9, true), Err(Error::AuthorizationFailure));

    ledger.set_arbiter(&admin, &address("GADMIN"), address("GARBITER")).unwrap();
    assert_eq!(ledger.set_dispute_state(&admin, 1, true), Err(Error::AuthorizationFailure));
    assert!(!ledger.get_grant(1).unwrap().dispute_active);

    let arbiter = Credentials::of("GARBITER");
    assert_eq!(ledger.set_dispute_state(&arbiter, 9, true), Err(Error::NotFound));
    assert_eq!(ledger.set_dispute_state(&arbiter, 1, true), Ok(()));
    assert!(ledger.get_grant(1).unwrap().dispute_active);
}

#[test]
fn only_the_admin_pauses_and_only_the_grantee_withdraws() {
    let mut ledger = ledger_with_grant(1_000, 10);
    let admin = Credentials::of("GADMIN");
    let grantee = Credentials::of("GGRANTEE");
    let before = ledger.get_grant(1).unwrap();

    assert_eq!(ledger.set_pause(&grantee, 1, true), Err(Error::AuthorizationFailure));
    assert_eq!(ledger.set_pause(&admin, 2, true), Err(Error::NotFound));
    assert_eq!(ledger.withdraw(&admin, 1, T0 + 10), Err(Error::AuthorizationFailure));
    assert_eq!(ledger.withdraw(&Credentials::none(), 1, T0 + 10), Err(Error::AuthorizationFailure));
    assert_eq!(ledger.withdraw(&grantee, 2, T0 + 10), Err(Error::NotFound));
    assert_eq!(ledger.withdraw(&grantee, 0, T0 + 10), Err(Error::NotFound));
    assert_eq!(ledger.get_grant(1).unwrap(), before);
}

#[test]
fn grants_do_not_touch_each_other() {
    let mut ledger = ledger_with_grant(1_000, 10);
    let admin = Credentials::of("GADMIN");
    ledger
        .create_grant(&admin, address("GADMIN"), address("GSECOND"), 500, 1, address("CTOKEN"), T0)
        .unwrap();
    let first = ledger.get_grant(1).unwrap();
    assert_eq!(ledger.withdraw(&Credentials::of("GSECOND"), 2, T0 + 100), Ok(100));
    assert_eq!(ledger.set_pause(&admin, 2, true), Ok(()));
    assert_eq!(ledger.get_grant(1).unwrap(), first);
    assert_eq!(ledger.get_grant(2).unwrap().balance, 400);
    assert!(ledger.get_grant(2).unwrap().is_paused);
}

#[test]
fn deciding_on_streaming_records() {
    let admin = Credentials::of("GADMIN");
    let grantee = Credentials::of("GGRANTEE");
    assert_eq!(
        Grant::open(&grantee, address("GADMIN"), address("GGRANTEE"), 100, 3, address("C"), 50),
        Err(Error::AuthorizationFailure)
    );
    let grant =
        Grant::open(&admin, address("GADMIN"), address("GGRANTEE"), 100, 3, address("C"), 50)
            .unwrap();
    assert_eq!(grant.payout(50), 0);
    assert_eq!(grant.payout(60), 30);
    assert_eq!(grant.payout(84), 100);
    assert_eq!(grant.payout(10), 0);

    assert_eq!(Grant::withdraw(None, &grantee, 60), Err(Error::NotFound));
    assert_eq!(Grant::withdraw(Some(&grant), &admin, 60), Err(Error::AuthorizationFailure));
    let (after, payout) = Grant::withdraw(Some(&grant), &grantee, 60).unwrap();
    assert_eq!(payout, 30);
    assert_eq!(after, Grant { balance: 70, last_claim_time: 60, ..grant.clone() });

    assert_eq!(Grant::set_pause(None, &admin, true), Err(Error::NotFound));
    assert_eq!(Grant::set_pause(Some(&grant), &grantee, true), Err(Error::AuthorizationFailure));
    let paused = Grant::set_pause(Some(&grant), &admin, true).unwrap();
    assert_eq!(paused, Grant { is_paused: true, ..grant.clone() });
    assert_eq!(Grant::withdraw(Some(&paused), &grantee, 60), Err(Error::Frozen));

    let arbiter = address("GARBITER");
    let judge = Credentials::of("GARBITER");
    assert_eq!(
        Grant::set_dispute_state(Some(&grant), &judge, None, true),
        Err(Error::AuthorizationFailure)
    );
    assert_eq!(
        Grant::set_dispute_state(Some(&grant), &admin, Some(&arbiter), true),
        Err(Error::AuthorizationFailure)
    );
    assert_eq!(Grant::set_dispute_state(None, &judge, Some(&arbiter), true), Err(Error::NotFound));
    let disputed = Grant::set_dispute_state(Some(&grant), &judge, Some(&arbiter), true).unwrap();
    assert_eq!(disputed, Grant { dispute_active: true, ..grant.clone() });
    assert_eq!(Grant::withdraw(Some(&disputed), &grantee, 60), Err(Error::Frozen));

    assert_eq!(
        appoint_arbiter(None, &admin, &address("GADMIN"), arbiter.clone()),
        Ok(arbiter.clone())
    );
    assert_eq!(
        appoint_arbiter(Some(&arbiter), &admin, &address("GADMIN"), address("GNEXT")),
        Err(Error::AlreadyExists)
    );
    assert_eq!(
        appoint_arbiter(None, &grantee, &address("GADMIN"), arbiter.clone()),
        Err(Error::AuthorizationFailure)
    );
}

#[test]
fn numbers_are_minted_one_after_the_other() {
    assert_eq!(next_grant_id(0), Some(1));
    assert_eq!(next_grant_id(1), Some(2));
    assert_eq!(next_grant_id(41), Some(42));
    assert_eq!(next_grant_id(u64::MAX - 1), Some(u64::MAX));
    assert_eq!(next_grant_id(u64::MAX), None);
}

#[test]
fn funds_move_by_the_transfers_asked_for() {
    let mut ledger = GrantContract::new();
    assert_eq!(ledger.take_transfers(), vec![]);
    let admin = Credentials::of("GADMIN");
    let grantee = Credentials::of("GGRANTEE");

    // A creation that is refused asks for nothing.
    assert!(ledger
        .create_grant(&grantee, address("GADMIN"), address("GGRANTEE"), 1_000, 10, address("C"), T0)
        .is_err());
    assert_eq!(ledger.take_transfers(), vec![]);

    ledger
        .create_grant(&admin, address("GADMIN"), address("GGRANTEE"), 1_000, 10, address("C"), T0)
        .unwrap();
    assert_eq!(
        ledger.take_transfers(),
        vec![Transfer::IntoCustody { token: address("C"), from: address("GADMIN"), amount: 1_000 }]
    );
    // Collected once, the transfers are gone.
    assert_eq!(ledger.take_transfers(), vec![]);

    // Nothing due: nothing asked for.
    assert_eq!(ledger.withdraw(&grantee, 1, T0), Ok(0));
    assert_eq!(ledger.take_transfers(), vec![]);

    assert_eq!(ledger.withdraw(&grantee, 1, T0 + 25), Ok(250));
    assert_eq!(ledger.withdraw(&grantee, 1, T0 + 500), Ok(750));
    assert_eq!(
        ledger.take_transfers(),
        vec![
            Transfer::OutOfCustody { token: address("C"), to: address("GGRANTEE"), amount: 250 },
            Transfer::OutOfCustody { token: address("C"), to: address("GGRANTEE"), amount: 750 },
        ]
    );
    // Collecting the transfers leaves the records alone.
    assert_eq!(ledger.get_grant(1).unwrap().balance, 0);
    assert_eq!(ledger.get_grant(1).unwrap().last_claim_time, T0 + 500);

    // An empty grant, a frozen grant, a stranger: nothing asked for.
    assert_eq!(ledger.withdraw(&grantee, 1, T0 + 900), Ok(0));
    ledger
        .create_grant(&admin, address("GADMIN"), address("GGRANTEE"), 50, 1, address("D"), T0)
        .unwrap();
    ledger.take_transfers();
    ledger.set_pause(&admin, 2, true).unwrap();
    assert_eq!(ledger.withdraw(&grantee, 2, T0 + 10), Err(Error::Frozen));
    assert_eq!(ledger.withdraw(&admin, 2, T0 + 10), Err(Error::AuthorizationFailure));
    ledger.set_arbiter(&admin, &address("GADMIN"), address("GARBITER")).unwrap();
    ledger.set_dispute_state(&Credentials::of("GARBITER"), 2, true).unwrap();
    assert_eq!(ledger.take_transfers(), vec![]);
}
