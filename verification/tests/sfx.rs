use toy_hover_battle::sfx::{Limiter, SfxEvent, Throttle};

#[test]
fn gun_fire_is_limited_to_one_play_per_forty_ms() {
    let p = SfxEvent::GunFire.playback();
    assert_eq!(p.throttle, Some(Throttle { slot: 0, min_interval_us: 40_000 }));
    assert_eq!(p.volume_percent, 25);
}

#[test]
fn explosions_and_menu_sounds_are_never_limited() {
    assert_eq!(SfxEvent::Explosion.playback().throttle, None);
    assert_eq!(SfxEvent::Explosion.playback().volume_percent, 60);
    assert_eq!(SfxEvent::MenuMove.playback().throttle, None);
    assert_eq!(SfxEvent::MenuConfirm.playback().volume_percent, 50);
}

#[test]
fn rock_impact_uses_its_own_slot() {
    let p = SfxEvent::RockImpact.playback();
    assert_eq!(p.throttle, Some(Throttle { slot: 6, min_interval_us: 220_000 }));
    assert_eq!(SfxEvent::ShieldHit.playback().throttle.unwrap().slot, 3);
    assert_eq!(SfxEvent::HullHit.playback().throttle.unwrap().slot, 4);
    assert_eq!(SfxEvent::VehicleCollision.playback().throttle.unwrap().slot, 5);
    assert_eq!(SfxEvent::RocketLaunch.playback().throttle.unwrap().slot, 1);
}

#[test]
fn limiter_spaces_plays_of_one_slot() {
    let mut l = Limiter::new();
    assert!(l.try_play(0, 1_000_000, 40_000));
    assert!(!l.try_play(0, 1_020_000, 40_000));
    assert!(l.try_play(1, 1_020_000, 40_000), "slots are independent");
    assert!(l.try_play(0, 1_040_000, 40_000));
    assert!(!l.try_play(0, 1_000_000, 40_000), "a clock step backwards is not due");
}
