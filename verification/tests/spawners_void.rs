use service_pre::channels::void::{NoRecv, NoSend};
use service_pre::noservice::NoService;
use service_pre::spawn::void::{NoHandle, NoSpawn, NoYield};
use service_pre::{SpawnUnyield, SpawnWeakUnyield, Spawner, SpawnerYield, YieldReturn};

#[test]
fn no_spawn_gives_a_handle_that_never_finishes() {
    let mut sp = NoSpawn;
    let mut h = <NoSpawn as Spawner<NoService<u8, u8>, NoSend, NoRecv>>::spawn(
        &mut sp,
        NoService::new(),
        NoSend,
        Some(1),
        NoRecv,
        0,
    )
    .unwrap();
    assert!(!h.is_finished());
    assert!(h.unyield().is_ok());
    let mut w = h.get_weak_unyield().unwrap();
    assert!(!w.is_finished());
}

#[test]
fn no_yield_answers_what_it_holds() {
    let mut y = NoYield(YieldReturn::Loop);
    assert_eq!(y.spawn_yield(), YieldReturn::Loop);
    assert_eq!(y.spawn_yield(), YieldReturn::Loop);
    let mut c = y.opt_clone().unwrap();
    assert_eq!(c.spawn_yield(), YieldReturn::Loop);
    let mut y = NoYield(YieldReturn::Return);
    assert_eq!(y.spawn_yield(), YieldReturn::Return);
}

#[test]
fn yield_through_a_reference() {
    let mut y = NoYield(YieldReturn::Return);
    let mut r = &mut y;
    assert_eq!(<&mut NoYield as SpawnerYield>::spawn_yield(&mut r), YieldReturn::Return);
    assert!(<&mut NoYield as SpawnerYield>::opt_clone(&mut r).is_none());
}

#[test]
fn no_service_is_built_and_cloned() {
    let s: NoService<u8, u8> = NoService::new();
    let _c = s.clone();
}
