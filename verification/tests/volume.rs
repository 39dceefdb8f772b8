use jank_bot::error::ValidationError;
use jank_bot::music::MusicParams;
use jank_bot::volume::{Volume, NEGATIVE_ZERO_BITS, UNIT_BITS};

fn fresh_state(fraction: f32) -> MusicParams<u32> {
    MusicParams::new(Volume::new(fraction.to_bits()).unwrap(), 1)
}

fn in_unit_interval(bits: u32) -> bool {
    let value = f32::from_bits(bits);
    value >= 0.0 && value <= 1.0
}

#[test]
fn unit_constants_are_the_patterns_of_one_and_negative_zero() {
    assert_eq!(UNIT_BITS, 1.0f32.to_bits());
    assert_eq!(NEGATIVE_ZERO_BITS, (-0.0f32).to_bits());
}

#[test]
fn volume_accepts_both_ends_of_the_interval() {
    assert_eq!(Volume::new(0.0f32.to_bits()).unwrap().bits(), 0.0f32.to_bits());
    assert_eq!(Volume::new(1.0f32.to_bits()).unwrap().bits(), 1.0f32.to_bits());
    assert_eq!(f32::from_bits(Volume::new(0.25f32.to_bits()).unwrap().bits()), 0.25);
}

#[test]
fn volume_accepts_negative_zero_and_the_smallest_positive_number() {
    assert!(Volume::new((-0.0f32).to_bits()).is_ok());
    assert!(Volume::new(1).is_ok());
    assert!(Volume::new(f32::MIN_POSITIVE.to_bits()).is_ok());
}

#[test]
fn volume_rejects_numbers_outside_the_interval() {
    let next_above_one = f32::from_bits(1.0f32.to_bits() + 1);
    for value in [next_above_one, 1.5, 100.0, f32::MAX, -f32::MIN_POSITIVE, -0.5, -1.0, f32::MIN] {
        assert_eq!(
            Volume::new(value.to_bits()).err(),
            Some(ValidationError::VolumeOutOfRange),
            "{}",
            value
        );
    }
    assert!(Volume::new(0x8000_0001).is_err());
}

#[test]
fn volume_rejects_infinities_and_nan() {
    for value in [f32::INFINITY, f32::NEG_INFINITY, f32::NAN, -f32::NAN] {
        assert_eq!(Volume::new(value.to_bits()).err(), Some(ValidationError::VolumeOutOfRange));
    }
    assert!(Volume::new(0x7F80_0001).is_err());
    assert!(Volume::new(0xFFFF_FFFF).is_err());
}

#[test]
fn volume_accepts_exactly_the_patterns_of_numbers_from_zero_to_one() {
    let mut bits: u32 = 0;
    loop {
        assert_eq!(Volume::new(bits).is_ok(), in_unit_interval(bits), "{:#x}", bits);
        match bits.checked_add(7919) {
            Some(next) => bits = next,
            None => break,
        }
    }
    for around in [UNIT_BITS, NEGATIVE_ZERO_BITS, 0x7F80_0000, 0xFF80_0000, 0x0080_0000] {
        for bits in around - 3..=around + 3 {
            assert_eq!(Volume::new(bits).is_ok(), in_unit_interval(bits), "{:#x}", bits);
        }
    }
    for bits in [0u32, 1, 2, u32::MAX - 1, u32::MAX] {
        assert_eq!(Volume::new(bits).is_ok(), in_unit_interval(bits), "{:#x}", bits);
    }
}

#[test]
fn set_volume_accepts_zero_and_one_hundred_percent() {
    let mut state = fresh_state(0.5);
    assert_eq!(state.set_volume((0.0f32 / 100.0).to_bits()), Ok(()));
    assert_eq!(f32::from_bits(state.volume().bits()), 0.0);
    assert_eq!(state.set_volume((100.0f32 / 100.0).to_bits()), Ok(()));
    assert_eq!(f32::from_bits(state.volume().bits()), 1.0);
}

#[test]
fn set_volume_rejects_one_hundred_and_fifty_percent_and_keeps_the_volume() {
    let mut state = fresh_state(0.5);
    assert_eq!(
        state.set_volume((150.0f32 / 100.0).to_bits()),
        Err(ValidationError::VolumeOutOfRange)
    );
    assert_eq!(f32::from_bits(state.volume().bits()), 0.5);
    assert_eq!(
        state.set_volume((-1.0f32 / 100.0).to_bits()),
        Err(ValidationError::VolumeOutOfRange)
    );
    assert_eq!(f32::from_bits(state.volume().bits()), 0.5);
}

#[test]
fn set_volume_twice_leaves_the_volume_set_once() {
    let mut state = fresh_state(1.0);
    let wanted = 0.3f32.to_bits();
    assert_eq!(state.set_volume(wanted), Ok(()));
    assert_eq!(state.volume().bits(), wanted);
    assert_eq!(state.set_volume(wanted), Ok(()));
    assert_eq!(state.volume().bits(), wanted);
    assert_eq!(f32::from_bits(state.volume().bits()), 0.3);
}

#[test]
fn set_volume_touches_nothing_but_the_volume() {
    let mut state = fresh_state(1.0);
    state.enqueue("http://a".to_string()).unwrap();
    state.set_volume(0.75f32.to_bits()).unwrap();
    assert_eq!(state.queue().uris(), vec!["http://a".to_string()]);
    assert_eq!(state.text_channel(), 1);
    assert!(state.current_song().is_none());
}

#[test]
fn volume_sync_pushes_the_volume_only_while_a_track_plays() {
    let mut state = fresh_state(0.5);
    assert!(state.volume_sync().is_none());
    state.enqueue("http://a".to_string()).unwrap();
    let ticket = state.on_tick().unwrap();
    assert!(state.volume_sync().is_none());
    state.on_started(ticket.generation, "A".to_string(), 41).unwrap();
    {
        let (handle, volume) = state.volume_sync().unwrap();
        assert_eq!(*handle, 41);
        assert_eq!(f32::from_bits(volume.bits()), 0.5);
    }
    state.set_volume(0.125f32.to_bits()).unwrap();
    for _ in 0..2 {
        let (handle, volume) = state.volume_sync().unwrap();
        assert_eq!(*handle, 41);
        assert_eq!(f32::from_bits(volume.bits()), 0.125);
    }
    state.on_finish();
    assert!(state.volume_sync().is_none());
}
