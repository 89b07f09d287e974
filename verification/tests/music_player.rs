use baal::channel::ChannelConv;
use baal::music::{Gain, Music, MusicCommand, MusicRead, MusicStatus, MusicTransition};

#[test]
fn new_player_mixes_nothing() {
    let m = Music::new(false, MusicTransition::Instant, 2);
    assert_eq!(m.main_gain(), None);
    assert_eq!(m.transitional_gain(), None);
    assert!(!m.seek());
    assert!(!m.is_paused());
}

#[test]
fn instant_change_replaces_the_music() {
    let mut m = Music::new(false, MusicTransition::Instant, 2);
    let change = m.set_music(1);
    assert_eq!(change.status, MusicStatus::Play);
    assert!(!change.fade_out_previous);
    assert_eq!(m.channel_conv(), ChannelConv::OneIntoTwo);
    assert_eq!(m.main_gain(), Some(Gain::Full));
    let change = m.set_music(2);
    assert!(!change.fade_out_previous);
    assert_eq!(m.channel_conv(), ChannelConv::TwoIntoTwo);
    assert_eq!(m.transitional_gain(), None);
}

#[test]
fn overlap_fades_old_music_out_and_new_in() {
    let mut m = Music::new(false, MusicTransition::Overlap(100), 1);
    m.set_music(2);
    assert_eq!(m.main_gain(), Some(Gain::Full));
    let change = m.set_music(1);
    assert!(change.fade_out_previous);
    assert_eq!(m.main_gain(), Some(Gain::FadeIn { done: 0, length: 100 }));
    assert_eq!(m.transitional_gain(), Some(Gain::FadeOut { done: 0, length: 100 }));
    assert_eq!(m.main_read(64), MusicRead::Playing);
    assert!(!m.transitional_read(64));
    assert_eq!(m.main_gain(), Some(Gain::FadeIn { done: 64, length: 100 }));
    assert_eq!(m.transitional_gain(), Some(Gain::FadeOut { done: 64, length: 100 }));
    // the transition is over once 100 frames of the old music were read
    assert!(m.transitional_read(64));
    assert_eq!(m.transitional_gain(), None);
    assert_eq!(m.main_gain(), Some(Gain::Full));
}

#[test]
fn fading_music_dropped_when_it_ends() {
    let mut m = Music::new(false, MusicTransition::Smooth(1000), 2);
    m.set_music(2);
    m.set_music(2);
    assert!(m.transitional_read(0));
    assert_eq!(m.transitional_gain(), None);
}

#[test]
fn smooth_transition_plays_new_music_after_the_old_one() {
    let mut m = Music::new(false, MusicTransition::Smooth(100), 2);
    m.set_music(2);
    assert_eq!(m.main_gain(), Some(Gain::Full));
    let change = m.set_music(1);
    assert!(change.fade_out_previous);
    // only the old music is heard while it fades out
    assert_eq!(m.main_gain(), None);
    assert_eq!(m.transitional_gain(), Some(Gain::FadeOut { done: 0, length: 100 }));
    assert!(!m.transitional_read(60));
    assert_eq!(m.main_gain(), None);
    assert_eq!(m.transitional_gain(), Some(Gain::FadeOut { done: 60, length: 100 }));
    assert!(m.transitional_read(60));
    assert_eq!(m.transitional_gain(), None);
    assert_eq!(m.main_gain(), Some(Gain::Full));
}

#[test]
fn fading_music_keeps_its_own_conversion() {
    let mut m = Music::new(false, MusicTransition::Overlap(100), 1);
    m.set_music(2);
    assert_eq!(m.channel_conv(), ChannelConv::TwoIntoOne);
    m.set_music(1);
    assert_eq!(m.channel_conv(), ChannelConv::OneIntoOne);
    assert_eq!(m.transitional_channel_conv(), ChannelConv::TwoIntoOne);
}

#[test]
fn commands_are_handled_with_their_reactions() {
    let mut m = Music::new(false, MusicTransition::Overlap(10), 2);
    let r = m.handle(MusicCommand::Pause);
    assert_eq!(r.status, None);
    let r = m.handle(MusicCommand::Resume);
    assert_eq!(r.status, None);
    let r = m.handle(MusicCommand::SetMusic(1));
    assert_eq!(r.status, Some(MusicStatus::Play));
    assert!(r.new_music);
    assert!(r.fade_out_previous);
    assert!(!r.drop_music);
    let r = m.handle(MusicCommand::Seek);
    assert!(r.seek_music);
    let r = m.handle(MusicCommand::SetMusic(2));
    assert!(r.fade_out_previous);
    assert_eq!(m.transitional_channel_conv(), ChannelConv::OneIntoTwo);
    let r = m.handle(MusicCommand::Pause);
    assert_eq!(r.status, Some(MusicStatus::Pause));
    let r = m.handle(MusicCommand::SetTransition(MusicTransition::Instant));
    assert!(r.drop_fading);
    assert_eq!(m.transitional_gain(), None);
    let r = m.handle(MusicCommand::SetLoop(true));
    assert_eq!(r.status, None);
    assert!(m.is_looping());
    let r = m.handle(MusicCommand::Resume);
    assert_eq!(r.status, Some(MusicStatus::Play));
    let r = m.handle(MusicCommand::SetMusic(2));
    assert!(!r.fade_out_previous);
    let r = m.handle(MusicCommand::Stop);
    assert_eq!(r.status, Some(MusicStatus::Stop));
    assert!(r.drop_music);
    assert_eq!(m.main_gain(), None);
    let r = m.handle(MusicCommand::Seek);
    assert!(!r.seek_music);
}

#[test]
fn change_without_music_fades_nothing_out() {
    let mut m = Music::new(false, MusicTransition::Smooth(10), 2);
    let change = m.set_music(2);
    assert!(change.fade_out_previous);
    assert_eq!(m.transitional_gain(), None);
    assert_eq!(m.main_gain(), Some(Gain::Full));
}

#[test]
fn instant_transition_drops_the_fading_music() {
    let mut m = Music::new(false, MusicTransition::Overlap(50), 2);
    m.set_music(1);
    m.set_music(1);
    assert!(m.transitional_gain().is_some());
    m.set_transition(MusicTransition::Instant);
    assert_eq!(m.transitional_gain(), None);
    assert_eq!(m.main_gain(), Some(Gain::Full));
}

#[test]
fn ended_music_loops_or_stops() {
    let mut m = Music::new(true, MusicTransition::Instant, 2);
    m.set_music(2);
    assert_eq!(m.main_read(0), MusicRead::Rewind);
    assert!(m.seek());
    m.set_loop(false);
    assert!(!m.is_looping());
    assert_eq!(m.main_read(0), MusicRead::Ended);
    assert_eq!(m.main_gain(), None);
    assert!(!m.seek());
}

#[test]
fn pause_and_resume_report_only_with_music() {
    let mut m = Music::new(false, MusicTransition::Instant, 2);
    assert_eq!(m.pause(), None);
    assert_eq!(m.resume(), None);
    m.set_music(1);
    assert_eq!(m.pause(), Some(MusicStatus::Pause));
    assert_eq!(m.main_gain(), None);
    assert_eq!(m.resume(), Some(MusicStatus::Play));
    assert_eq!(m.main_gain(), Some(Gain::Full));
    assert_eq!(m.stop(), MusicStatus::Stop);
    assert_eq!(m.main_gain(), None);
}

#[test]
fn paused_player_mixes_no_fading_music() {
    let mut m = Music::new(false, MusicTransition::Overlap(10), 2);
    m.set_music(1);
    m.set_music(1);
    m.pause();
    assert_eq!(m.main_gain(), None);
    assert_eq!(m.transitional_gain(), None);
}
