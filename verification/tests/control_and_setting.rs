use baal::control::Control;
use baal::effect::Effect;
use baal::music::{MusicStatus, MusicTransition};
use baal::setting::{check_setting, first_file_error, FileProbe, Player, ProbedFile, SettingSummary};
use baal::source::wait::duration_nanos;
use baal::{CheckLevel, InitError};

fn good(name: &str) -> ProbedFile {
    ProbedFile {
        name: name.to_string(),
        probe: FileProbe::Readable { same_sample_rate: true, channels: 2 },
    }
}

fn summary(channels: i32, check_level: CheckLevel, music_count: usize) -> SettingSummary {
    SettingSummary {
        channels,
        check_level,
        music_loop: true,
        music_transition: MusicTransition::Overlap(20),
        music_count,
    }
}

fn probed(name: &str, probe: FileProbe) -> ProbedFile {
    ProbedFile { name: name.to_string(), probe }
}

#[test]
fn status_is_the_last_reported() {
    let mut c = Control::from_setting(true, MusicTransition::Smooth(5), 2);
    assert_eq!(c.status(&vec![]), MusicStatus::Stop);
    assert_eq!(c.status(&vec![MusicStatus::Play, MusicStatus::Pause]), MusicStatus::Pause);
    assert_eq!(c.status(&vec![]), MusicStatus::Pause);
    assert_eq!(c.status(&vec![MusicStatus::Stop, MusicStatus::Play]), MusicStatus::Play);
}

#[test]
fn control_remembers_the_asked_music() {
    let mut c = Control::from_setting(false, MusicTransition::Instant, 3);
    assert_eq!(c.index(), None);
    c.play(2);
    assert_eq!(c.index(), Some(2));
    c.stop();
    assert_eq!(c.index(), None);
    assert!(!c.is_looping());
    c.set_looping(true);
    assert!(c.is_looping());
    c.set_transition(MusicTransition::Overlap(7));
    assert_eq!(c.transition(), MusicTransition::Overlap(7));
    assert_eq!(c.music_count(), 3);
}

#[test]
fn output_channels_are_checked_first() {
    let bad = vec![probed("a.ogg", FileProbe::Unreadable(2))];
    assert_eq!(
        check_setting(3, CheckLevel::Always, false, &bad, &bad),
        Err(InitError::OutputChannels)
    );
    assert_eq!(
        check_setting(0, CheckLevel::Never, false, &vec![], &vec![]),
        Err(InitError::OutputChannels)
    );
}

#[test]
fn each_file_error_is_reported() {
    let unreadable = vec![good("ok.ogg"), probed("gone.ogg", FileProbe::Unreadable(1))];
    assert_eq!(
        check_setting(2, CheckLevel::Always, false, &unreadable, &vec![]),
        Err(InitError::SndFile((1, "gone.ogg".to_string())))
    );
    let rate = vec![probed("r.ogg", FileProbe::Readable { same_sample_rate: false, channels: 2 })];
    assert_eq!(
        check_setting(1, CheckLevel::Never, false, &vec![], &rate),
        Err(InitError::SampleRate("r.ogg".to_string()))
    );
    let chans = vec![probed("c.ogg", FileProbe::Readable { same_sample_rate: true, channels: 6 })];
    assert_eq!(
        check_setting(1, CheckLevel::Never, false, &vec![], &chans),
        Err(InitError::Channels("c.ogg".to_string()))
    );
    assert_eq!(
        first_file_error(&vec![good("x"), chans[0].clone_probe(), rate[0].clone_probe()]),
        Some(InitError::Channels("c.ogg".to_string()))
    );
}

trait CloneProbe {
    fn clone_probe(&self) -> ProbedFile;
}

impl CloneProbe for ProbedFile {
    fn clone_probe(&self) -> ProbedFile {
        ProbedFile { name: self.name.clone(), probe: self.probe }
    }
}

#[test]
fn musics_are_checked_as_the_level_says() {
    let music = vec![probed("m.ogg", FileProbe::Unreadable(3))];
    let effects = vec![good("e.ogg")];
    assert_eq!(check_setting(2, CheckLevel::Never, true, &music, &effects), Ok(()));
    assert_eq!(check_setting(2, CheckLevel::Debug, false, &music, &effects), Ok(()));
    assert_eq!(
        check_setting(2, CheckLevel::Debug, true, &music, &effects),
        Err(InitError::SndFile((3, "m.ogg".to_string())))
    );
    assert_eq!(
        check_setting(2, CheckLevel::Always, false, &music, &effects),
        Err(InitError::SndFile((3, "m.ogg".to_string())))
    );
    // effects are always checked, after the musics
    let bad_effects = vec![probed("e.ogg", FileProbe::Unreadable(4))];
    assert_eq!(
        check_setting(2, CheckLevel::Never, false, &music, &bad_effects),
        Err(InitError::SndFile((4, "e.ogg".to_string())))
    );
}

#[test]
fn player_refuses_double_init_and_restarts_after_close() {
    let music = vec![good("village.ogg")];
    let effects = vec![good("shoot.ogg"), good("hit.ogg")];
    let setting = summary(2, CheckLevel::Always, 1);
    let mut p = Player::new();
    assert!(!p.is_initialized());
    let c = p.init(&setting, false, &music, &effects).unwrap();
    assert_eq!(c.index(), None);
    assert!(c.is_looping());
    assert_eq!(c.transition(), MusicTransition::Overlap(20));
    assert_eq!(c.music_count(), 1);
    assert!(p.init(&setting, false, &music, &effects).err() == Some(InitError::DoubleInit));
    let c = p.reset(&summary(1, CheckLevel::Always, 1), false, &music, &effects).unwrap();
    assert_eq!(c.index(), None);
    assert!(
        p.reset(&summary(5, CheckLevel::Always, 1), false, &music, &effects).err()
            == Some(InitError::OutputChannels)
    );
    assert!(p.is_initialized());
    p.close();
    assert!(!p.is_initialized());
    assert!(p.init(&setting, false, &music, &effects).is_ok());
}

#[test]
fn refused_reset_of_a_stopped_player_answers_the_error() {
    let mut p = Player::new();
    let bad = vec![probed("bad.ogg", FileProbe::Unreadable(7))];
    assert!(
        p.reset(&summary(2, CheckLevel::Never, 0), false, &vec![], &bad).err()
            == Some(InitError::SndFile((7, "bad.ogg".to_string())))
    );
    assert!(!p.is_initialized());
}

#[test]
fn failed_init_leaves_player_stopped() {
    let mut p = Player::new();
    assert!(
        p.init(&summary(4, CheckLevel::Never, 0), false, &vec![], &vec![]).err()
            == Some(InitError::OutputChannels)
    );
    assert!(!p.is_initialized());
}

#[test]
fn test() {
    // init, play the music and the effects, close: four times over
    let music = vec![good("village.ogg")];
    let effects = vec![good("shoot.ogg"), good("hit.ogg")];
    let setting = SettingSummary {
        channels: 2,
        check_level: CheckLevel::Debug,
        music_loop: false,
        music_transition: MusicTransition::Instant,
        music_count: music.len(),
    };
    let mut p = Player::new();
    for _ in 0..4 {
        let mut c = p.init(&setting, true, &music, &effects).expect("fail to init baal");
        assert_eq!(c.status(&vec![]), MusicStatus::Stop);
        c.play(0);
        assert_eq!(c.index(), Some(0));
        let mut shoot = Effect::new(1, 2, 2);
        let mut hit = Effect::new(1, 2, 2);
        for _ in 0..7 {
            shoot.play();
            hit.play();
        }
        assert_eq!(shoot.playing(), vec![0]);
        assert_eq!(hit.playing(), vec![0]);
        p.close();
    }
}

#[test]
fn durations_in_nanoseconds() {
    assert_eq!(duration_nanos(0, 0), 0);
    assert_eq!(duration_nanos(1, 500), 1_000_000_500);
    assert_eq!(duration_nanos(3, 999_999_999), 3_999_999_999);
}
