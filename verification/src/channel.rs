//! Conversion between the channels of a sound file and those of the output.

use vstd::prelude::*;

verus! {

/// How the channels of a sound file are mapped onto the output channels.
/// Only mono (1) and stereo (2) are handled on either side.
#[derive(Debug, Clone, Copy, PartialEq, Eq, Structural)]
pub enum ChannelConv {
    /// stereo file, mono output: both channels are averaged
    TwoIntoOne,
    /// mono file, stereo output: the channel is copied to both
    OneIntoTwo,
    /// stereo file, stereo output
    TwoIntoTwo,
    /// mono file, mono output
    OneIntoOne,
}

/// A channel count that the player handles: mono or stereo.
pub open spec fn is_handled_channels(channels: i32) -> bool {
    channels == 1 || channels == 2
}

/// The conversion from a file with `input` channels to an output with
/// `output` channels, both 1 or 2.
pub open spec fn conv_for(input: i32, output: i32) -> ChannelConv {
    if input == 1 {
        if output == 1 {
            ChannelConv::OneIntoOne
        } else {
            ChannelConv::OneIntoTwo
        }
    } else {
        if output == 1 {
            ChannelConv::TwoIntoOne
        } else {
            ChannelConv::TwoIntoTwo
        }
    }
}

impl ChannelConv {
    /// Number of channels of the sound files this conversion reads.
    pub open spec fn spec_input_channels(self) -> i32 {
        match self {
            ChannelConv::TwoIntoOne | ChannelConv::TwoIntoTwo => 2,
            ChannelConv::OneIntoTwo | ChannelConv::OneIntoOne => 1,
        }
    }

    /// Number of channels of the output this conversion writes.
    pub open spec fn spec_output_channels(self) -> i32 {
        match self {
            ChannelConv::TwoIntoOne | ChannelConv::OneIntoOne => 1,
            ChannelConv::OneIntoTwo | ChannelConv::TwoIntoTwo => 2,
        }
    }

    /// The conversion from a file with `input` channels to an output with
    /// `output` channels. Both counts must be 1 or 2.
    pub fn from_channels(input: i32, output: i32) -> (res: ChannelConv)
        requires
            is_handled_channels(input),
            is_handled_channels(output),
        ensures
            res == conv_for(input, output),
            res.spec_input_channels() == input,
            res.spec_output_channels() == output,
    {
        match input {
            1 => match output {
                1 => ChannelConv::OneIntoOne,
                _ => ChannelConv::OneIntoTwo,
            },
            _ => match output {
                1 => ChannelConv::TwoIntoOne,
                _ => ChannelConv::TwoIntoTwo,
            },
        }
    }

    /// Number of channels of the sound files this conversion reads.
    pub fn input_channels(&self) -> (res: i32)
        ensures
            res == self.spec_input_channels(),
    {
        match *self {
            ChannelConv::TwoIntoOne | ChannelConv::TwoIntoTwo => 2,
            ChannelConv::OneIntoTwo | ChannelConv::OneIntoOne => 1,
        }
    }

    /// Number of channels of the output this conversion writes.
    pub fn output_channels(&self) -> (res: i32)
        ensures
            res == self.spec_output_channels(),
    {
        match *self {
            ChannelConv::TwoIntoOne | ChannelConv::OneIntoOne => 1,
            ChannelConv::OneIntoTwo | ChannelConv::TwoIntoTwo => 2,
        }
    }
}

/// A conversion is determined by its input and output channel counts:
/// `from_channels` applied to the counts of a conversion gives it back.
pub proof fn lemma_conv_determined_by_channels(a: ChannelConv, b: ChannelConv)
    requires
        a.spec_input_channels() == b.spec_input_channels(),
        a.spec_output_channels() == b.spec_output_channels(),
    ensures
        a == b,
{
}

/// Each pair of mono/stereo counts has its own conversion, which reads and
/// writes those counts: a stereo file on a mono output is averaged, a mono
/// file on a stereo output is copied.
pub proof fn lemma_conversions(input: i32, output: i32)
    requires
        is_handled_channels(input),
        is_handled_channels(output),
    ensures
        conv_for(input, output).spec_input_channels() == input,
        conv_for(input, output).spec_output_channels() == output,
        conv_for(2, 1) == ChannelConv::TwoIntoOne,
        conv_for(1, 2) == ChannelConv::OneIntoTwo,
        conv_for(1, 1) == ChannelConv::OneIntoOne,
        conv_for(2, 2) == ChannelConv::TwoIntoTwo,
{
}

} // verus!
