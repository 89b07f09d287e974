use baal::channel::ChannelConv;
use baal::effect::Effect;

#[test]
fn voices_are_taken_in_turn() {
    let mut e = Effect::new(3, 2, 1);
    assert_eq!(e.capacity(), 3);
    assert_eq!(e.channel_conv(), ChannelConv::TwoIntoOne);
    assert!(e.playing().is_empty());
    assert_eq!(e.play(), 0);
    assert_eq!(e.play(), 1);
    assert_eq!(e.playing(), vec![0, 1]);
    assert_eq!(e.play(), 2);
    assert_eq!(e.playing(), vec![0, 1, 2]);
}

#[test]
fn full_effect_restarts_its_oldest_voice() {
    let mut e = Effect::new(3, 1, 1);
    e.play();
    e.play();
    e.play();
    assert_eq!(e.play(), 0);
    assert_eq!(e.playing(), vec![1, 2, 0]);
    assert_eq!(e.play(), 1);
    assert_eq!(e.playing(), vec![2, 0, 1]);
}

#[test]
fn as_many_voices_play_as_the_effect_has() {
    let mut e = Effect::new(10, 1, 2);
    for _ in 0..10 {
        e.play();
    }
    assert_eq!(e.playing().len(), 10);
    for _ in 0..25 {
        let v = e.play();
        let playing = e.playing();
        assert_eq!(playing.len(), 10);
        assert_eq!(*playing.last().unwrap(), v);
    }
}

#[test]
fn finished_voices_retire_oldest_first() {
    let mut e = Effect::new(4, 1, 1);
    e.play();
    e.play();
    e.play();
    // the oldest voice delivered nothing: it has finished
    e.retire(&vec![0, 64, 64]);
    assert_eq!(e.playing(), vec![1, 2]);
    e.retire(&vec![12, 64]);
    assert_eq!(e.playing(), vec![1, 2]);
    assert_eq!(e.play(), 3);
    assert_eq!(e.play(), 0);
    assert_eq!(e.playing(), vec![1, 2, 3, 0]);
    e.retire(&vec![0, 0, 5, 5]);
    assert_eq!(e.playing(), vec![3, 0]);
    assert_eq!(e.play(), 1);
}

#[test]
fn stop_silences_every_voice() {
    let mut e = Effect::new(2, 1, 1);
    e.play();
    e.play();
    e.stop();
    assert!(e.playing().is_empty());
    assert_eq!(e.play(), 0);
    assert_eq!(e.playing(), vec![0]);
}

#[test]
fn single_voice_effect_restarts_itself() {
    let mut e = Effect::new(1, 1, 1);
    assert_eq!(e.play(), 0);
    assert_eq!(e.play(), 0);
    assert_eq!(e.playing(), vec![0]);
    e.retire(&vec![0]);
    assert!(e.playing().is_empty());
}
