//! Sound: which configuration of the output device is taken, and the buffer between the
//! emulator, which plays samples into it, and the sound card, which takes them out.
//!
//! A sample is whatever the emulator produces (`S`). The sound card may want another kind of
//! sample, so each sample is converted on its way out.
use vstd::prelude::*;

verus! {

/// The sample rate that is asked for, in samples per second.
pub const WANTED_SAMPLERATE: u32 = 44100;

/// How the sound card wants its samples.
#[derive(Clone, Copy, Debug, PartialEq, Eq, Structural)]
pub enum SampleFormat {
    I16,
    U16,
    F32,
}

/// A range of configurations that an output device supports.
#[derive(Clone, Copy, Debug, PartialEq, Eq, Structural)]
pub struct ConfigRange {
    pub channels: u16,
    pub sample_format: SampleFormat,
    pub min_sample_rate: u32,
    pub max_sample_rate: u32,
}

/// How a sample rate is taken out of a range.
#[derive(Clone, Copy, Debug, PartialEq, Eq, Structural)]
pub enum RateChoice {
    /// The wanted rate lies in the range.
    Wanted,
    /// The wanted rate does not, and the highest rate is taken.
    Max,
}

/// The configuration that was chosen among the ranges of a device.
#[derive(Clone, Copy, Debug, PartialEq, Eq, Structural)]
pub struct SelectedConfig {
    /// The place of the range in the list.
    pub index: usize,
    pub rate_choice: RateChoice,
    pub sample_rate: u32,
    pub sample_format: SampleFormat,
}

/// What was found on looking for an output device.
#[derive(Debug)]
pub enum OutputProbe {
    NoDevice,
    /// There is a device, but it does not tell its configurations.
    NoConfigs,
    Configs(Vec<ConfigRange>),
}

impl ConfigRange {
    /// Stereo, with floating point samples.
    pub open spec fn is_usable(self) -> bool {
        self.channels == 2 && self.sample_format is F32
    }

    /// The wanted rate lies in the range.
    pub open spec fn has_wanted_rate(self) -> bool {
        self.min_sample_rate <= WANTED_SAMPLERATE <= self.max_sample_rate
    }

    /// The rate that is taken out of the range: the wanted one if it is there, else the highest.
    pub open spec fn best_rate(self) -> u32 {
        if self.has_wanted_rate() {
            WANTED_SAMPLERATE
        } else {
            self.max_sample_rate
        }
    }
}

/// `selected` is the best configuration of the first usable range.
pub open spec fn is_selection(configs: Seq<ConfigRange>, selected: SelectedConfig) -> bool {
    let range = configs[selected.index as int];
    &&& selected.index < configs.len()
    &&& range.is_usable()
    &&& forall|i: int| 0 <= i < selected.index ==> !(#[trigger] configs[i]).is_usable()
    &&& selected.rate_choice is Wanted <==> range.has_wanted_rate()
    &&& selected.sample_rate == range.best_rate()
    &&& selected.sample_format == range.sample_format
}

/// Chooses the configuration in which samples are played. There is none if and only if no
/// range is usable.
pub fn select_config(configs: &Vec<ConfigRange>) -> (res: Option<SelectedConfig>)
    ensures
        res is None <==> forall|i: int|
            0 <= i < configs@.len() ==> !(#[trigger] configs@[i]).is_usable(),
        res matches Some(selected) ==> is_selection(configs@, selected),
        res is None <==> forall|i: int|
            0 <= i < configs@.len() ==> !((#[trigger] configs@[i]).channels == 2
                && configs@[i].sample_format is F32),
        res matches Some(selected) ==> {
            let range = configs@[selected.index as int];
            &&& selected.index < configs@.len()
            &&& range.channels == 2 && range.sample_format is F32
            &&& forall|i: int|
                0 <= i < selected.index ==> !((#[trigger] configs@[i]).channels == 2
                    && configs@[i].sample_format is F32)
            &&& if range.min_sample_rate <= 44100 && 44100 <= range.max_sample_rate {
                selected.rate_choice is Wanted && selected.sample_rate == 44100
            } else {
                selected.rate_choice is Max && selected.sample_rate == range.max_sample_rate
            }
            &&& selected.sample_format is F32
        },
{
    let mut index: usize = 0;
    while index < configs.len()
        invariant
            index <= configs@.len(),
            forall|i: int| 0 <= i < index ==> !(#[trigger] configs@[i]).is_usable(),
        decreases configs@.len() - index,
    {
        let range = configs[index];
        if range.channels == 2 && range.sample_format == SampleFormat::F32 {
            let wanted = range.min_sample_rate <= WANTED_SAMPLERATE && WANTED_SAMPLERATE
                <= range.max_sample_rate;
            let (rate_choice, sample_rate) = if wanted {
                (RateChoice::Wanted, WANTED_SAMPLERATE)
            } else {
                (RateChoice::Max, range.max_sample_rate)
            };
            return Some(
                SelectedConfig {
                    index,
                    rate_choice,
                    sample_rate,
                    sample_format: range.sample_format,
                },
            );
        }
        index = index + 1;
    }
    None
}

/// The chosen configuration is the only one, its samples are floating point, and where the
/// range it comes from is not empty its rate lies in that range.
pub proof fn selection_is_sound(configs: Seq<ConfigRange>, a: SelectedConfig, b: SelectedConfig)
    requires
        is_selection(configs, a),
        is_selection(configs, b),
    ensures
        a == b,
        a.sample_format is F32,
        a.sample_rate <= configs[a.index as int].max_sample_rate,
        configs[a.index as int].min_sample_rate <= configs[a.index as int].max_sample_rate
            ==> configs[a.index as int].min_sample_rate <= a.sample_rate,
{
    if a.index < b.index {
        assert(!configs[a.index as int].is_usable());
    }
    if b.index < a.index {
        assert(!configs[b.index as int].is_usable());
    }
}

/// The first stereo range with floating point samples is chosen. Its rate is 44100 wherever that
/// lies between the lowest and the highest rate of the range, both included, and is the highest
/// rate of the range wherever it does not.
pub proof fn rate_is_44100_or_the_highest(configs: Seq<ConfigRange>, selected: SelectedConfig)
    requires
        is_selection(configs, selected),
    ensures
        ({
            let range = configs[selected.index as int];
            &&& selected.index < configs.len()
            &&& range.channels == 2 && range.sample_format is F32
            &&& forall|i: int|
                0 <= i < selected.index ==> !((#[trigger] configs[i]).channels == 2
                    && configs[i].sample_format is F32)
            &&& if range.min_sample_rate <= 44100 && 44100 <= range.max_sample_rate {
                selected.rate_choice is Wanted && selected.sample_rate == 44100
            } else {
                selected.rate_choice is Max && selected.sample_rate == range.max_sample_rate
            }
            &&& selected.sample_format is F32
        }),
{
    let range = configs[selected.index as int];
    assert(range.is_usable());
    assert forall|i: int| 0 <= i < selected.index implies !((#[trigger] configs[i]).channels == 2
        && configs[i].sample_format is F32) by {
        assert(!configs[i].is_usable());
    }
}

/// Ranges that come after the chosen one make no difference, and a range that is not stereo or not
/// floating point only moves the choice down by one place when it is put in front.
pub proof fn only_the_first_usable_range_matters(
    configs: Seq<ConfigRange>,
    later: Seq<ConfigRange>,
    first: ConfigRange,
    selected: SelectedConfig,
)
    requires
        is_selection(configs, selected),
        selected.index < usize::MAX,
        first.channels != 2 || !(first.sample_format is F32),
    ensures
        is_selection(configs + later, selected),
        is_selection(
            seq![first] + configs,
            (SelectedConfig { index: (selected.index + 1) as usize, ..selected }),
        ),
{
    let moved = seq![first] + configs;
    assert forall|i: int| 0 <= i < selected.index implies !(#[trigger] (configs
        + later)[i]).is_usable() by {
        assert(!configs[i].is_usable());
    }
    assert forall|i: int| 0 <= i < selected.index + 1 implies !(#[trigger] moved[i]).is_usable() by {
        if i > 0 {
            assert(!configs[i - 1].is_usable());
        }
    }
}

/// The smaller of two lengths.
pub open spec fn least(a: nat, b: nat) -> nat {
    if a < b {
        a
    } else {
        b
    }
}

/// Two channels as one sequence of stereo frames, as long as the shorter channel.
pub open spec fn frames<S>(left: Seq<S>, right: Seq<S>) -> Seq<(S, S)> {
    Seq::new(least(left.len(), right.len()), |i: int| (left[i], right[i]))
}

/// Stereo frames as one sequence of samples, left and right in turn.
pub open spec fn interleaved<S>(buffered: Seq<(S, S)>) -> Seq<S> {
    Seq::new(
        2 * buffered.len(),
        |i: int|
            if i % 2 == 0 {
                buffered[i / 2].0
            } else {
                buffered[i / 2].1
            },
    )
}

/// How many more frames a buffer of `len` frames takes at a sample rate: it is filled until it
/// holds a second of sound.
pub open spec fn room(len: nat, sample_rate: u32) -> nat {
    if len >= sample_rate {
        0
    } else {
        (sample_rate - len) as nat
    }
}

/// The first frames of `offered`, as many as the buffer takes.
pub open spec fn taken_in<S>(buffered: Seq<(S, S)>, sample_rate: u32, offered: Seq<(S, S)>) -> Seq<
    (S, S),
> {
    offered.take(least(offered.len(), room(buffered.len(), sample_rate)) as int)
}

/// How many frames go out to a sound card that has room for `samples` samples.
pub open spec fn outgoing(buffered: nat, samples: nat) -> nat {
    least(samples / 2, buffered)
}

/// The buffer between the emulator and the sound card.
#[derive(Debug)]
pub struct CpalPlayer<S> {
    /// The frames that wait to be played, the oldest first.
    pub buffer: Vec<(S, S)>,
    /// Frames per second.
    pub sample_rate: u32,
}

impl<S: Copy> CpalPlayer<S> {
    /// The buffer holds at most a second of sound.
    pub open spec fn wf(self) -> bool {
        self.buffer@.len() <= self.sample_rate
    }

    /// Sets up the player for what was found on looking for an output device. There is no player
    /// if there is no device, if it does not tell its configurations, or if none of them is
    /// usable.
    pub fn get(probe: OutputProbe) -> (res: Option<(CpalPlayer<S>, SelectedConfig)>)
        ensures
            res is Some <==> (probe matches OutputProbe::Configs(configs) && exists|i: int|
                0 <= i < configs@.len() && (#[trigger] configs@[i]).is_usable()),
            res matches Some((player, selected)) ==> {
                &&& is_selection(probe->Configs_0@, selected)
                &&& player.buffer@ == Seq::<(S, S)>::empty()
                &&& player.sample_rate == selected.sample_rate
                &&& player.wf()
            },
            res is Some <==> (probe matches OutputProbe::Configs(configs) && exists|i: int|
                0 <= i < configs@.len() && (#[trigger] configs@[i]).channels == 2
                    && configs@[i].sample_format is F32),
            res matches Some((player, selected)) ==> {
                let range = probe->Configs_0@[selected.index as int];
                &&& selected.index < probe->Configs_0@.len()
                &&& range.channels == 2 && range.sample_format is F32
                &&& forall|i: int|
                    0 <= i < selected.index ==> !((#[trigger] probe->Configs_0@[i]).channels == 2
                        && probe->Configs_0@[i].sample_format is F32)
                &&& if range.min_sample_rate <= 44100 && 44100 <= range.max_sample_rate {
                    selected.rate_choice is Wanted && selected.sample_rate == 44100
                } else {
                    selected.rate_choice is Max && selected.sample_rate == range.max_sample_rate
                }
                &&& selected.sample_format is F32
                &&& player.sample_rate == selected.sample_rate
            },
    {
        let configs = match probe {
            OutputProbe::NoDevice => return None,
            OutputProbe::NoConfigs => return None,
            OutputProbe::Configs(configs) => configs,
        };
        match select_config(&configs) {
            Some(selected) => {
                let player = CpalPlayer { buffer: Vec::new(), sample_rate: selected.sample_rate };
                Some((player, selected))
            },
            None => None,
        }
    }

    /// Takes samples of the emulator into the buffer, in order, until it holds a second of sound.
    /// The rest is dropped, so that the sound is soon in step again after the speed limit was
    /// off. Both channels are equally long.
    pub fn play(&mut self, buf_left: &[S], buf_right: &[S])
        requires
            buf_left@.len() == buf_right@.len(),
        ensures
            final(self).sample_rate == old(self).sample_rate,
            final(self).buffer@ == old(self).buffer@ + taken_in(
                old(self).buffer@,
                old(self).sample_rate,
                frames(buf_left@, buf_right@),
            ),
            old(self).wf() ==> final(self).wf(),
            final(self).buffer@.len() == (if old(self).buffer@.len() >= old(self).sample_rate {
                old(self).buffer@.len()
            } else if old(self).buffer@.len() + buf_left@.len() <= old(self).sample_rate {
                old(self).buffer@.len() + buf_left@.len()
            } else {
                old(self).sample_rate as nat
            }),
            forall|k: int|
                0 <= k < old(self).buffer@.len() ==> #[trigger] final(self).buffer@[k] == old(self).buffer@[k],
            forall|k: int|
                old(self).buffer@.len() <= k < final(self).buffer@.len() ==> #[trigger] final(self).buffer@[k] == (
                    buf_left@[k - old(self).buffer@.len()],
                    buf_right@[k - old(self).buffer@.len()],
                ),
    {
        let ghost offered = frames(buf_left@, buf_right@);
        let mut i: usize = 0;
        while i < buf_left.len()
            invariant
                buf_left@.len() == buf_right@.len(),
                offered == frames(buf_left@, buf_right@),
                i <= offered.len(),
                i <= room(old(self).buffer@.len(), self.sample_rate),
                self.sample_rate == old(self).sample_rate,
                self.buffer@ == old(self).buffer@ + offered.take(i as int),
            decreases offered.len() - i,
        {
            if self.buffer.len() >= self.sample_rate as usize {
                return;
            }
            self.buffer.push((buf_left[i], buf_right[i]));
            assert(offered.take(i + 1) =~= offered.take(i as int).push(offered[i as int]));
            i = i + 1;
        }
    }

    /// Frames per second.
    pub fn samples_rate(&self) -> (res: u32)
        ensures
            res == self.sample_rate,
    {
        self.sample_rate
    }

    /// Tells whether there is nothing left to play.
    pub fn underflowed(&self) -> (res: bool)
        ensures
            res <==> self.buffer@.len() == 0,
    {
        self.buffer.len() == 0
    }
}

/// Fills the sound card's buffer with the oldest frames, left and right in turn, as many as
/// there are and as fit in whole. What the frames do not reach is left as it was.
pub fn cpal_thread<S: Copy, T, F: Fn(&S) -> T>(
    outbuffer: &mut [T],
    player: &mut CpalPlayer<S>,
    convert: F,
)
    requires
        forall|sample: &S| convert.requires((sample,)),
    ensures
        ({
            let n = outgoing(old(player).buffer@.len(), old(outbuffer)@.len());
            let out = interleaved(old(player).buffer@.take(n as int));
            &&& final(player).buffer@ == old(player).buffer@.skip(n as int)
            &&& final(player).sample_rate == old(player).sample_rate
            &&& final(outbuffer)@.len() == old(outbuffer)@.len()
            &&& forall|j: int|
                0 <= j < out.len() ==> convert.ensures((&out[j],), #[trigger] final(outbuffer)@[j])
            &&& forall|j: int|
                out.len() <= j < old(outbuffer)@.len() ==> #[trigger] final(outbuffer)@[j] == old(
                    outbuffer,
                )@[j]
        }),
        old(player).wf() ==> final(player).wf(),
        old(player).buffer@.len() - final(player).buffer@.len() == (if old(outbuffer)@.len() / 2
            < old(player).buffer@.len() {
            old(outbuffer)@.len() / 2
        } else {
            old(player).buffer@.len()
        }),
        forall|k: int|
            0 <= k < final(player).buffer@.len() ==> #[trigger] final(player).buffer@[k] == old(player).buffer@[k + old(player).buffer@.len() - final(player).buffer@.len()],
        forall|k: int|
            0 <= k < old(player).buffer@.len() - final(player).buffer@.len() ==> {
                &&& convert.ensures(
                    (&(#[trigger] old(player).buffer@[k]).0,),
                    final(outbuffer)@[2 * k],
                )
                &&& convert.ensures((&old(player).buffer@[k].1,), final(outbuffer)@[2 * k + 1])
            },
        forall|j: int|
            2 * (old(player).buffer@.len() - final(player).buffer@.len()) <= j < old(
                outbuffer,
            )@.len() ==> #[trigger] final(outbuffer)@[j] == old(outbuffer)@[j],
{
    let room: usize = outbuffer.len();
    let fit = room / 2;
    let outlen = if fit < player.buffer.len() {
        fit
    } else {
        player.buffer.len()
    };
    let rest = player.buffer.split_off(outlen);
    let ghost out = interleaved(player.buffer@);
    let ghost before = outbuffer@;
    let mut i: usize = 0;
    while i < outlen
        invariant
            i <= outlen,
            outlen == player.buffer@.len(),
            2 * outlen <= room,
            outbuffer@.len() == room,
            before.len() == room,
            out == interleaved(player.buffer@),
            forall|sample: &S| convert.requires((sample,)),
            forall|j: int|
                0 <= j < 2 * i ==> convert.ensures((&out[j],), #[trigger] outbuffer@[j]),
            forall|j: int| 2 * i <= j < before.len() ==> #[trigger] outbuffer@[j] == before[j],
        decreases outlen - i,
    {
        let (in_l, in_r) = player.buffer[i];
        assert(out[2 * i] == in_l);
        assert(out[2 * i + 1] == in_r);
        outbuffer[i * 2] = convert(&in_l);
        outbuffer[i * 2 + 1] = convert(&in_r);
        i = i + 1;
    }
    assert forall|k: int| 0 <= k < outlen implies {
        &&& convert.ensures((&(#[trigger] player.buffer@[k]).0,), outbuffer@[2 * k])
        &&& convert.ensures((&player.buffer@[k].1,), outbuffer@[2 * k + 1])
    } by {
        assert(out[2 * k] == player.buffer@[k].0);
        assert(out[2 * k + 1] == player.buffer@[k].1);
    }
    let ghost sent = player.buffer@;
    player.buffer = rest;
    proof {
        assert forall|k: int| 0 <= k < outlen implies {
            &&& convert.ensures((&(#[trigger] old(player).buffer@[k]).0,), outbuffer@[2 * k])
            &&& convert.ensures((&old(player).buffer@[k].1,), outbuffer@[2 * k + 1])
        } by {
            assert(sent[k] == old(player).buffer@[k]);
        }
    }
}

/// A frame is made of the samples that stand at its own place in the two channels, and there are
/// as many frames as samples in a channel.
pub proof fn frames_pair_up_the_channels<S>(left: Seq<S>, right: Seq<S>)
    requires
        left.len() == right.len(),
    ensures
        frames(left, right).len() == left.len(),
        forall|i: int|
            0 <= i < left.len() ==> (#[trigger] frames(left, right)[i]).0 == left[i] && frames(
                left,
                right,
            )[i].1 == right[i],
{
}

/// Interleaving loses no sample and changes no order: every frame gives two samples, its left one
/// at an even place and its right one behind it.
pub proof fn left_and_right_take_turns<S>(buffered: Seq<(S, S)>)
    ensures
        interleaved(buffered).len() == 2 * buffered.len(),
        forall|k: int|
            0 <= k < buffered.len() ==> interleaved(buffered)[2 * k] == (
            #[trigger] buffered[k]).0 && interleaved(buffered)[2 * k + 1] == buffered[k].1,
{
}

/// The buffer takes the first frames that it is offered, and takes all that fit: what it leaves
/// out it leaves out because it then holds a full second, and it takes nothing beyond that.
pub proof fn buffer_is_filled_to_a_second<S>(
    buffered: Seq<(S, S)>,
    sample_rate: u32,
    offered: Seq<(S, S)>,
)
    ensures
        ({
            let taken = taken_in(buffered, sample_rate, offered);
            &&& taken.len() <= offered.len()
            &&& forall|k: int| 0 <= k < taken.len() ==> #[trigger] taken[k] == offered[k]
            &&& taken.len() == offered.len() || buffered.len() + taken.len() >= sample_rate
            &&& taken.len() == 0 || buffered.len() + taken.len() <= sample_rate
        }),
{
}

/// Playing in pieces is the same as playing all at once.
pub proof fn playing_in_pieces_is_the_same<S>(
    buffered: Seq<(S, S)>,
    sample_rate: u32,
    first: Seq<(S, S)>,
    second: Seq<(S, S)>,
)
    ensures
        taken_in(buffered, sample_rate, first + second) == taken_in(buffered, sample_rate, first)
            + taken_in(
            buffered + taken_in(buffered, sample_rate, first),
            sample_rate,
            second,
        ),
{
    let one = taken_in(buffered, sample_rate, first);
    let two = taken_in(buffered + one, sample_rate, second);
    assert(taken_in(buffered, sample_rate, first + second) =~= one + two);
}

/// As many frames go out as there are and as fit in whole: no more than wait and no more than fit,
/// and afterwards either none waits or there is no room for another.
pub proof fn sound_card_gets_all_it_can_take(buffered: nat, samples: nat)
    ensures
        outgoing(buffered, samples) <= buffered,
        2 * outgoing(buffered, samples) <= samples,
        outgoing(buffered, samples) == buffered || samples - 2 * outgoing(buffered, samples) < 2,
        samples / 2 <= buffered ==> outgoing(buffered, samples) == samples / 2,
        buffered <= samples / 2 ==> outgoing(buffered, samples) == buffered,
{
}

/// Filling in pieces of whole frames gives as much as filling at once.
pub proof fn filling_in_pieces_gives_as_much(buffered: nat, first: nat, second: nat)
    ensures
        outgoing(buffered, 2 * first + 2 * second) == outgoing(buffered, 2 * first) + outgoing(
            (buffered - outgoing(buffered, 2 * first)) as nat,
            2 * second,
        ),
{
}

/// What is played is what is heard: sound of at most a second that is played into an empty buffer
/// comes out whole when the sound card has room for it, each sample of the left channel followed
/// by its fellow of the right one, and nothing stays behind.
pub proof fn what_is_played_is_heard<S>(
    left: Seq<S>,
    right: Seq<S>,
    sample_rate: u32,
    samples: nat,
)
    requires
        left.len() == right.len(),
        left.len() <= sample_rate,
        2 * left.len() <= samples,
    ensures
        ({
            let held = Seq::<(S, S)>::empty() + taken_in(
                Seq::<(S, S)>::empty(),
                sample_rate,
                frames(left, right),
            );
            let n = outgoing(held.len(), samples) as int;
            let heard = interleaved(held.take(n));
            &&& heard.len() == left.len() + right.len()
            &&& held.skip(n).len() == 0
            &&& forall|k: int|
                0 <= k < left.len() ==> heard[2 * k] == #[trigger] left[k] && heard[2 * k + 1]
                    == right[k]
        }),
{
}

/// Something that happens to the buffer.
pub enum AudioStep<S> {
    /// The emulator plays samples.
    Play { left: Seq<S>, right: Seq<S> },
    /// The sound card asks for a number of samples.
    Fill { samples: nat },
}

/// What is in the buffer after `steps`.
pub open spec fn buffered_after<S>(
    start: Seq<(S, S)>,
    sample_rate: u32,
    steps: Seq<AudioStep<S>>,
) -> Seq<(S, S)>
    decreases steps.len(),
{
    if steps.len() == 0 {
        start
    } else {
        let buffered = buffered_after(start, sample_rate, steps.drop_last());
        match steps.last() {
            AudioStep::Play { left, right } => buffered + taken_in(
                buffered,
                sample_rate,
                frames(left, right),
            ),
            AudioStep::Fill { samples } => buffered.skip(
                outgoing(buffered.len(), samples) as int,
            ),
        }
    }
}

/// All frames that were taken into the buffer during `steps`.
pub open spec fn all_taken_in<S>(
    start: Seq<(S, S)>,
    sample_rate: u32,
    steps: Seq<AudioStep<S>>,
) -> Seq<(S, S)>
    decreases steps.len(),
{
    if steps.len() == 0 {
        seq![]
    } else {
        let buffered = buffered_after(start, sample_rate, steps.drop_last());
        let before = all_taken_in(start, sample_rate, steps.drop_last());
        match steps.last() {
            AudioStep::Play { left, right } => before + taken_in(
                buffered,
                sample_rate,
                frames(left, right),
            ),
            AudioStep::Fill { samples } => before,
        }
    }
}

/// All frames that went out to the sound card during `steps`.
pub open spec fn all_put_out<S>(
    start: Seq<(S, S)>,
    sample_rate: u32,
    steps: Seq<AudioStep<S>>,
) -> Seq<(S, S)>
    decreases steps.len(),
{
    if steps.len() == 0 {
        seq![]
    } else {
        let buffered = buffered_after(start, sample_rate, steps.drop_last());
        let before = all_put_out(start, sample_rate, steps.drop_last());
        match steps.last() {
            AudioStep::Play { left, right } => before,
            AudioStep::Fill { samples } => before + buffered.take(
                outgoing(buffered.len(), samples) as int,
            ),
        }
    }
}

/// The sound card gets every frame that was taken in exactly once and in order: what went out,
/// followed by what still waits, is what was there at first, followed by what was taken in.
pub proof fn sound_comes_out_as_it_went_in<S>(
    start: Seq<(S, S)>,
    sample_rate: u32,
    steps: Seq<AudioStep<S>>,
)
    ensures
        all_put_out(start, sample_rate, steps) + buffered_after(start, sample_rate, steps) == start
            + all_taken_in(start, sample_rate, steps),
    decreases steps.len(),
{
    if steps.len() == 0 {
        assert(Seq::<(S, S)>::empty() + start =~= start + Seq::<(S, S)>::empty());
    } else {
        let before = steps.drop_last();
        sound_comes_out_as_it_went_in(start, sample_rate, before);
        let out = all_put_out(start, sample_rate, before);
        let buffered = buffered_after(start, sample_rate, before);
        let taken = all_taken_in(start, sample_rate, before);
        match steps.last() {
            AudioStep::Play { left, right } => {
                let new = taken_in(buffered, sample_rate, frames(left, right));
                assert(out + (buffered + new) =~= (out + buffered) + new);
                assert(start + (taken + new) =~= (start + taken) + new);
            },
            AudioStep::Fill { samples } => {
                let n = outgoing(buffered.len(), samples) as int;
                assert((out + buffered.take(n)) + buffered.skip(n) =~= out + buffered);
            },
        }
    }
}

/// The buffer is never filled with more than a second of sound.
pub proof fn buffer_stays_within_a_second<S>(
    start: Seq<(S, S)>,
    sample_rate: u32,
    steps: Seq<AudioStep<S>>,
)
    requires
        start.len() <= sample_rate,
    ensures
        buffered_after(start, sample_rate, steps).len() <= sample_rate,
    decreases steps.len(),
{
    if steps.len() > 0 {
        buffer_stays_within_a_second(start, sample_rate, steps.drop_last());
    }
}

/// Frames are dropped only when the buffer already holds a second of sound.
pub proof fn frames_are_dropped_only_when_full<S>(
    buffered: Seq<(S, S)>,
    sample_rate: u32,
    offered: Seq<(S, S)>,
)
    ensures
        taken_in(buffered, sample_rate, offered) == offered || (buffered + taken_in(
            buffered,
            sample_rate,
            offered,
        )).len() >= sample_rate,
{
    if taken_in(buffered, sample_rate, offered).len() == offered.len() {
        assert(taken_in(buffered, sample_rate, offered) =~= offered);
    }
}

} // verus!
