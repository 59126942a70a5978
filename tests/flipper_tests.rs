use flipper::{AccountId, CounterStore, Flipped, Flipper, IFlipper};

fn alice() -> AccountId {
    AccountId([0x01; 32])
}

fn bob() -> AccountId {
    AccountId([0x02; 32])
}

fn eve() -> AccountId {
    AccountId([0x05; 32])
}

#[test]
fn default_works() {
    let flipper = Flipper::default();
    assert_eq!(flipper.get(), false);
}

#[test]
fn it_works() {
    let mut sink = Vec::new();
    let mut flipper = Flipper::new(false, alice(), &mut sink);
    assert_eq!(flipper.get(), false);
    let res = flipper.flip(alice(), &mut sink);
    assert_eq!(res, Result::Ok(()));
    assert_eq!(flipper.get(), true);
}

#[test]
fn mapping_works() {
    let mut sink = Vec::new();
    let mut flipper = Flipper::new(false, alice(), &mut sink);
    assert_eq!(flipper.get(), false);

    let res = flipper.flip(alice(), &mut sink);
    assert_eq!(res, Result::Ok(()));

    let count = flipper.get_caller_value(alice());
    let caller = flipper.get_caller();
    assert_eq!(count, 2);
    assert_eq!(caller, alice());
    assert_eq!(flipper.get(), true);
}

#[test]
fn change_account_works() {
    let mut sink = Vec::new();
    let mut flipper = Flipper::new(false, eve(), &mut sink);
    assert_eq!(flipper.get(), false);

    let res = flipper.flip(eve(), &mut sink);
    assert_eq!(res, Result::Ok(()));

    let count = flipper.get_caller_value(eve());
    let caller = flipper.get_caller();
    assert_eq!(count, 2);
    assert_eq!(caller, eve());
    assert_eq!(flipper.get(), true);
}

#[test]
fn default_has_zero_caller_and_no_counts() {
    let flipper = Flipper::default();
    assert_eq!(flipper.get_caller(), AccountId([0; 32]));
    assert_eq!(flipper.get_caller_value(alice()), 0);
    assert_eq!(flipper.get_caller_value(AccountId([0; 32])), 0);
}

#[test]
fn reads_repeat_without_flip() {
    let mut sink = Vec::new();
    let flipper = Flipper::new(true, alice(), &mut sink);
    assert_eq!(flipper.get(), flipper.get());
    assert_eq!(flipper.get(), true);
    assert_eq!(flipper.get_caller_value(alice()), flipper.get_caller_value(alice()));
}

#[test]
fn two_flips_restore_flag() {
    let mut sink = Vec::new();
    let mut flipper = Flipper::new(true, alice(), &mut sink);
    flipper.flip(bob(), &mut sink).unwrap();
    assert_eq!(flipper.get(), false);
    flipper.flip(bob(), &mut sink).unwrap();
    assert_eq!(flipper.get(), true);
}

#[test]
fn count_grows_by_number_of_own_flips() {
    let mut sink = Vec::new();
    let mut flipper = Flipper::new(false, alice(), &mut sink);
    let before = flipper.get_caller_value(bob());
    for _ in 0..5 {
        flipper.flip(bob(), &mut sink).unwrap();
        flipper.flip(eve(), &mut sink).unwrap();
    }
    assert_eq!(flipper.get_caller_value(bob()), before + 5);
    assert_eq!(flipper.get_caller_value(eve()), 5);
    assert_eq!(flipper.get_caller_value(alice()), 1);
}

#[test]
fn last_caller_is_latest_flipper() {
    let mut sink = Vec::new();
    let mut flipper = Flipper::new(false, alice(), &mut sink);
    flipper.flip(bob(), &mut sink).unwrap();
    assert_eq!(flipper.get_caller(), bob());
    flipper.flip(eve(), &mut sink).unwrap();
    assert_eq!(flipper.get_caller(), eve());
    flipper.flip(alice(), &mut sink).unwrap();
    assert_eq!(flipper.get_caller(), alice());
}

#[test]
fn new_seeds_initializer_count() {
    let mut sink = Vec::new();
    let flipper = Flipper::new(false, alice(), &mut sink);
    assert_eq!(flipper.get(), false);
    assert_eq!(flipper.get_caller_value(alice()), 1);
    assert_eq!(flipper.get_caller(), alice());
}

#[test]
fn new_then_flip_by_initializer() {
    let mut sink = Vec::new();
    let mut flipper = Flipper::new(false, alice(), &mut sink);
    assert_eq!(flipper.flip(alice(), &mut sink), Ok(()));
    assert_eq!(flipper.get(), true);
    assert_eq!(flipper.get_caller_value(alice()), 2);
    assert_eq!(flipper.get_caller(), alice());
}

#[test]
fn default_then_flip() {
    let mut flipper = Flipper::default();
    let mut sink = Vec::new();
    assert_eq!(flipper.flip(bob(), &mut sink), Ok(()));
    assert_eq!(flipper.get(), true);
    assert_eq!(flipper.get_caller_value(bob()), 1);
    assert_eq!(flipper.get_caller(), bob());
    assert!(sink.len() == 1);
}

#[test]
fn flip_by_other_caller_leaves_initializer_count() {
    let mut sink = Vec::new();
    let mut flipper = Flipper::new(false, alice(), &mut sink);
    assert_eq!(flipper.flip(bob(), &mut sink), Ok(()));
    assert_eq!(flipper.get_caller_value(bob()), 1);
    assert_eq!(flipper.get_caller_value(alice()), 1);
    assert_eq!(flipper.get(), true);
    assert_eq!(flipper.get_caller(), bob());
}

#[test]
fn notifications_carry_prior_count_and_new_value() {
    let mut sink = Vec::new();
    let mut flipper = Flipper::new(true, alice(), &mut sink);
    assert_eq!(sink, vec![Flipped { caller: alice(), value: true, no_of_times: 0 }]);

    let prior = flipper.get_caller_value(alice());
    flipper.flip(alice(), &mut sink).unwrap();
    assert_eq!(sink.len(), 2);
    assert_eq!(sink[1], Flipped { caller: alice(), value: flipper.get(), no_of_times: prior });
    assert_eq!(sink[1], Flipped { caller: alice(), value: false, no_of_times: 1 });

    flipper.flip(bob(), &mut sink).unwrap();
    assert_eq!(sink.len(), 3);
    assert_eq!(sink[2], Flipped { caller: bob(), value: true, no_of_times: 0 });
}

#[test]
fn default_emits_nothing_then_one_per_flip() {
    let mut flipper = Flipper::default();
    let mut sink = Vec::new();
    for i in 0..4u32 {
        flipper.flip(eve(), &mut sink).unwrap();
        assert_eq!(sink.len() as u32, i + 1);
        assert_eq!(sink[i as usize].no_of_times, i);
    }
}

#[test]
fn counter_store_absent_reads_zero() {
    let store = CounterStore::new();
    assert_eq!(store.get(&alice()), 0);
}

#[test]
fn counter_store_set_overwrites() {
    let mut store = CounterStore::new();
    store.set(&alice(), 7);
    store.set(&bob(), 3);
    assert_eq!(store.get(&alice()), 7);
    store.set(&alice(), 9);
    assert_eq!(store.get(&alice()), 9);
    assert_eq!(store.get(&bob()), 3);
    assert_eq!(store.get(&eve()), 0);
}

#[test]
fn counter_store_largest_value() {
    let mut store = CounterStore::new();
    store.set(&eve(), u32::MAX);
    assert_eq!(store.get(&eve()), u32::MAX);
}

#[test]
fn account_ids_differing_in_last_byte() {
    let mut bytes = [0x07; 32];
    let a = AccountId(bytes);
    bytes[31] = 0x08;
    let b = AccountId(bytes);
    assert!(a.same_as(&a));
    assert!(!a.same_as(&b));
    let mut store = CounterStore::new();
    store.set(&a, 1);
    assert_eq!(store.get(&b), 0);
}
