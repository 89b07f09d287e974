use baal::channel::ChannelConv;
use baal::CheckLevel;

#[test]
fn check_level_decides_by_build() {
    assert!(CheckLevel::Always.check(false));
    assert!(CheckLevel::Always.check(true));
    assert!(!CheckLevel::Never.check(false));
    assert!(!CheckLevel::Never.check(true));
    assert!(CheckLevel::Debug.check(true));
    assert!(!CheckLevel::Debug.check(false));
}

#[test]
fn from_channels_picks_each_conversion() {
    assert_eq!(ChannelConv::from_channels(1, 1), ChannelConv::OneIntoOne);
    assert_eq!(ChannelConv::from_channels(1, 2), ChannelConv::OneIntoTwo);
    assert_eq!(ChannelConv::from_channels(2, 1), ChannelConv::TwoIntoOne);
    assert_eq!(ChannelConv::from_channels(2, 2), ChannelConv::TwoIntoTwo);
}

#[test]
fn conversion_gives_back_its_channels() {
    for input in 1..3 {
        for output in 1..3 {
            let conv = ChannelConv::from_channels(input, output);
            assert_eq!(conv.input_channels(), input);
            assert_eq!(conv.output_channels(), output);
        }
    }
}
