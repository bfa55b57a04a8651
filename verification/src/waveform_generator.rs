//! Collecting the peaks of a song's waveform.
//!
//! A decoding pipeline posts a level message for every slice of the song; the
//! bus watch turns those messages into [`PeaksAction`]s and hands them to the
//! generator, which gathers the peaks in the order they arrive. The pipeline and
//! the main loop are run by the application; this module holds the decisions.

use vstd::prelude::*;

verus! {

/// What the bus watch sends to the generator.
#[derive(Debug)]
pub enum PeaksAction<T> {
    /// The peaks of the left and right channels for the next slice of the song.
    Peak(T, T),
    /// The end of the stream: no more peaks will come.
    Eos,
}

/// The peaks after the generator has received one action.
pub open spec fn spec_receive<T>(peaks: Option<Seq<(T, T)>>, action: PeaksAction<T>) -> Option<Seq<(T, T)>> {
    match action {
        PeaksAction::Peak(left, right) => match peaks {
            Some(s) => Some(s.push((left, right))),
            None => None,
        },
        PeaksAction::Eos => peaks,
    }
}

/// The peaks after the generator has received each of the actions in turn.
pub open spec fn spec_receive_all<T>(peaks: Option<Seq<(T, T)>>, actions: Seq<PeaksAction<T>>) -> Option<Seq<(T, T)>>
    decreases actions.len(),
{
    if actions.len() == 0 {
        peaks
    } else {
        spec_receive_all(spec_receive(peaks, actions[0]), actions.drop_first())
    }
}

/// The actions that carry the given peaks, one by one.
pub open spec fn peak_actions<T>(pairs: Seq<(T, T)>) -> Seq<PeaksAction<T>> {
    pairs.map_values(|p: (T, T)| PeaksAction::Peak(p.0, p.1))
}

/// Gathers the peaks of the song at a URI.
pub struct WaveformGenerator<T> {
    uri: Option<String>,
    peaks: Option<Vec<(T, T)>>,
}

impl<T> WaveformGenerator<T> {
    /// The URI of the song whose peaks are gathered, by its characters.
    pub closed spec fn uri_view(&self) -> Option<Seq<char>> {
        match self.uri {
            Some(u) => Some(u@),
            None => None,
        }
    }

    /// The peaks gathered so far; `None` before the first generation.
    pub closed spec fn peaks_view(&self) -> Option<Seq<(T, T)>> {
        match self.peaks {
            Some(v) => Some(v@),
            None => None,
        }
    }

    /// A generator with no URI and no peaks.
    pub fn new() -> (g: Self)
        ensures
            g.uri_view() is None,
            g.peaks_view() is None,
    {
        WaveformGenerator { uri: None, peaks: None }
    }

    /// Sets the URI of the song to read; the peaks are left as they are.
    pub fn set_uri(&mut self, uri: Option<String>)
        ensures
            final(self).uri_view() == (match uri {
                Some(u) => Some(u@),
                None => None::<Seq<char>>,
            }),
            final(self).peaks_view() == old(self).peaks_view(),
    {
        self.uri = uri;
    }

    /// Whether peaks are available (the `has-peaks` property): true from the
    /// start of the first generation on.
    pub fn has_peaks(&self) -> (b: bool)
        ensures
            b == self.peaks_view() is Some,
    {
        self.peaks.is_some()
    }

    /// Starts a new generation: the peaks become empty, and the URI that the
    /// pipeline is to decode is returned.
    pub fn generate_peaks(&mut self) -> (uri: Option<String>)
        ensures
            final(self).peaks_view() == Some(Seq::<(T, T)>::empty()),
            final(self).uri_view() == old(self).uri_view(),
            (match uri {
                Some(u) => Some(u@),
                None => None::<Seq<char>>,
            }) == old(self).uri_view(),
    {
        self.peaks = Some(Vec::new());
        match &self.uri {
            Some(u) => Some(u.clone()),
            None => None,
        }
    }

    /// Receives one action from the bus watch. A peak is appended to the peaks,
    /// if a generation has started; the end of the stream leaves them as they
    /// are. Returns whether to keep receiving: false once the stream has ended,
    /// and the `has-peaks` property is then to be announced.
    pub fn receive(&mut self, action: PeaksAction<T>) -> (keep_receiving: bool)
        ensures
            final(self).peaks_view() == spec_receive(old(self).peaks_view(), action),
            action matches PeaksAction::Peak(l, r) ==> (match old(self).peaks_view() {
                Some(p) => final(self).peaks_view() == Some(p.push((l, r))),
                None => final(self).peaks_view() is None,
            }),
            action is Eos ==> final(self).peaks_view() == old(self).peaks_view(),
            final(self).uri_view() == old(self).uri_view(),
            keep_receiving == (action is Peak),
    {
        match action {
            PeaksAction::Peak(left, right) => {
                match &mut self.peaks {
                    Some(peaks) => {
                        peaks.push((left, right));
                    },
                    None => {},
                }
                true
            },
            PeaksAction::Eos => false,
        }
    }
}

impl<T: Copy> WaveformGenerator<T> {
    /// A copy of the peaks gathered so far.
    pub fn peaks(&self) -> (peaks: Option<Vec<(T, T)>>)
        ensures
            (match peaks {
                Some(v) => Some(v@),
                None => None::<Seq<(T, T)>>,
            }) == self.peaks_view(),
    {
        match &self.peaks {
            None => None,
            Some(src) => {
                let mut out: Vec<(T, T)> = Vec::new();
                let mut i: usize = 0;
                while i < src.len()
                    invariant
                        i <= src.len(),
                        out@ == src@.subrange(0, i as int),
                    decreases src.len() - i,
                {
                    let p = src[i];
                    out.push(p);
                    i = i + 1;
                }
                assert(out@ == src@);
                Some(out)
            },
        }
    }
}

/// Receiving the peaks of a stream one by one, after a generation has started,
/// gathers exactly those peaks, in the order in which they came.
pub proof fn lemma_peaks_gathered_in_order<T>(pairs: Seq<(T, T)>)
    ensures
        spec_receive_all(Some(Seq::<(T, T)>::empty()), peak_actions(pairs)) == Some(pairs),
{
    lemma_receive_all_appends(Seq::<(T, T)>::empty(), pairs);
    assert(Seq::<(T, T)>::empty() + pairs == pairs);
}

/// Receiving peaks after some have been gathered appends them to those.
pub proof fn lemma_receive_all_appends<T>(gathered: Seq<(T, T)>, pairs: Seq<(T, T)>)
    ensures
        spec_receive_all(Some(gathered), peak_actions(pairs)) == Some(gathered + pairs),
    decreases pairs.len(),
{
    if pairs.len() == 0 {
        assert(gathered + pairs == gathered);
    } else {
        let rest = pairs.drop_first();
        assert(peak_actions(pairs).drop_first() == peak_actions(rest));
        lemma_receive_all_appends(gathered.push(pairs[0]), rest);
        assert(gathered.push(pairs[0]) + rest == gathered + pairs);
    }
}

/// The end of the stream leaves the gathered peaks as they are, whatever came before.
pub proof fn lemma_eos_keeps_peaks<T>(peaks: Option<Seq<(T, T)>>)
    ensures
        spec_receive(peaks, PeaksAction::<T>::Eos) == peaks,
{
}

/// The state the bus watch asks the pipeline to go to.
#[derive(Clone, Copy, Debug, PartialEq, Eq, Structural)]
pub enum PipelineState {
    Null,
    Ready,
}

/// A message that the decoding pipeline posts on its bus.
#[derive(Debug)]
pub enum BusMessage<T> {
    /// The end of the stream.
    Eos,
    /// An error in the pipeline.
    Error,
    /// A level message, carrying the normalised peaks of the two channels.
    Level(T, T),
    /// Any other message.
    Other,
}

/// What the bus watch does with one message.
#[derive(Debug)]
pub struct BusReply<T> {
    /// The state to put the pipeline in, if any.
    pub set_state: Option<PipelineState>,
    /// The action to send to the generator, if any.
    pub send: Option<PeaksAction<T>>,
    /// Whether to keep watching the bus.
    pub keep_watching: bool,
}

/// The reply of the bus watch to a message; `pipeline_alive` says whether the
/// pipeline still exists. Once it is gone the watch stops and does nothing
/// else. The end of the stream stops the pipeline (`Null`), an error readies
/// it (`Ready`); both send the end of the stream and stop the watch. A level
/// message sends its peaks; other messages are passed over.
pub open spec fn spec_bus_reply<T>(pipeline_alive: bool, message: BusMessage<T>) -> BusReply<T> {
    if !pipeline_alive {
        BusReply { set_state: None, send: None, keep_watching: false }
    } else {
        match message {
            BusMessage::Eos => BusReply {
                set_state: Some(PipelineState::Null),
                send: Some(PeaksAction::Eos),
                keep_watching: false,
            },
            BusMessage::Error => BusReply {
                set_state: Some(PipelineState::Ready),
                send: Some(PeaksAction::Eos),
                keep_watching: false,
            },
            BusMessage::Level(left, right) => BusReply {
                set_state: None,
                send: Some(PeaksAction::Peak(left, right)),
                keep_watching: true,
            },
            BusMessage::Other => BusReply { set_state: None, send: None, keep_watching: true },
        }
    }
}

/// Decides what the bus watch does with one message.
pub fn bus_reply<T>(pipeline_alive: bool, message: BusMessage<T>) -> (reply: BusReply<T>)
    ensures
        reply == spec_bus_reply(pipeline_alive, message),
        !pipeline_alive ==> reply.send is None && reply.set_state is None && !reply.keep_watching,
        pipeline_alive && message is Eos ==> (reply.set_state == Some(PipelineState::Null)
            && reply.send is Some && reply.send->0 is Eos && !reply.keep_watching),
        pipeline_alive && message is Error ==> (reply.set_state == Some(PipelineState::Ready)
            && reply.send is Some && reply.send->0 is Eos && !reply.keep_watching),
        pipeline_alive ==> (message matches BusMessage::Level(l, r) ==> reply.set_state is None
            && reply.send == Some(PeaksAction::Peak(l, r)) && reply.keep_watching),
        pipeline_alive && message is Other ==> reply.set_state is None && reply.send is None
            && reply.keep_watching,
{
    if !pipeline_alive {
        return BusReply { set_state: None, send: None, keep_watching: false };
    }
    match message {
        BusMessage::Eos => BusReply {
            set_state: Some(PipelineState::Null),
            send: Some(PeaksAction::Eos),
            keep_watching: false,
        },
        BusMessage::Error => BusReply {
            set_state: Some(PipelineState::Ready),
            send: Some(PeaksAction::Eos),
            keep_watching: false,
        },
        BusMessage::Level(left, right) => BusReply {
            set_state: None,
            send: Some(PeaksAction::Peak(left, right)),
            keep_watching: true,
        },
        BusMessage::Other => BusReply { set_state: None, send: None, keep_watching: true },
    }
}

/// The watch stops exactly when it sends the end of the stream or the pipeline
/// is gone; while it keeps watching it never changes the pipeline's state.
pub proof fn lemma_watch_stops_with_eos<T>(pipeline_alive: bool, message: BusMessage<T>)
    ensures
        ({
            let r = spec_bus_reply(pipeline_alive, message);
            &&& !r.keep_watching <==> (!pipeline_alive || r.send matches Some(PeaksAction::Eos))
            &&& r.keep_watching ==> r.set_state is None
        }),
{
}


/// The actions the bus watch sends for a stream of messages, while the
/// pipeline is alive, in order.
pub open spec fn spec_sent_actions<T>(messages: Seq<BusMessage<T>>) -> Seq<PeaksAction<T>>
    decreases messages.len(),
{
    if messages.len() == 0 {
        Seq::empty()
    } else {
        let first = match spec_bus_reply(true, messages[0]).send {
            Some(a) => seq![a],
            None => Seq::empty(),
        };
        first + spec_sent_actions(messages.drop_first())
    }
}

/// The peaks carried by the level messages of a stream, in order.
pub open spec fn spec_level_pairs<T>(messages: Seq<BusMessage<T>>) -> Seq<(T, T)>
    decreases messages.len(),
{
    if messages.len() == 0 {
        Seq::empty()
    } else {
        let first = match messages[0] {
            BusMessage::Level(l, r) => seq![(l, r)],
            _ => Seq::empty(),
        };
        first + spec_level_pairs(messages.drop_first())
    }
}

/// Whether a message neither ends the stream nor reports an error.
pub open spec fn is_mid_stream<T>(message: BusMessage<T>) -> bool {
    message is Level || message is Other
}

/// Receiving two runs of actions one after the other is receiving their concatenation.
pub proof fn lemma_receive_all_concat<T>(
    peaks: Option<Seq<(T, T)>>,
    a: Seq<PeaksAction<T>>,
    b: Seq<PeaksAction<T>>,
)
    ensures
        spec_receive_all(peaks, a + b) == spec_receive_all(spec_receive_all(peaks, a), b),
    decreases a.len(),
{
    if a.len() == 0 {
        assert(a + b == b);
    } else {
        assert((a + b)[0] == a[0]);
        assert((a + b).drop_first() == a.drop_first() + b);
        lemma_receive_all_concat(spec_receive(peaks, a[0]), a.drop_first(), b);
    }
}

/// Within a stream, the watch sends one peak action per level message, in order.
proof fn lemma_sent_mid_stream<T>(messages: Seq<BusMessage<T>>)
    requires
        forall|i: int| 0 <= i < messages.len() ==> is_mid_stream(#[trigger] messages[i]),
    ensures
        spec_sent_actions(messages) == peak_actions(spec_level_pairs(messages)),
    decreases messages.len(),
{
    if messages.len() > 0 {
        let rest = messages.drop_first();
        assert forall|i: int| 0 <= i < rest.len() implies is_mid_stream(#[trigger] rest[i]) by {
            assert(rest[i] == messages[i + 1]);
        }
        lemma_sent_mid_stream(rest);
        assert(is_mid_stream(messages[0]));
        let first_pairs: Seq<(T, T)> = match messages[0] {
            BusMessage::Level(l, r) => seq![(l, r)],
            _ => Seq::empty(),
        };
        assert(peak_actions(first_pairs + spec_level_pairs(rest)) =~= peak_actions(first_pairs)
            + peak_actions(spec_level_pairs(rest)));
        assert(spec_sent_actions(messages) =~= peak_actions(first_pairs) + spec_sent_actions(rest));
    }
}

/// The watch sends for a stream followed by its end what it sends for the
/// stream, then the end of the stream.
proof fn lemma_sent_then_end<T>(messages: Seq<BusMessage<T>>, last: BusMessage<T>)
    requires
        last is Eos || last is Error,
    ensures
        spec_sent_actions(messages.push(last)) == spec_sent_actions(messages).push(
            PeaksAction::<T>::Eos,
        ),
    decreases messages.len(),
{
    if messages.len() == 0 {
        let s = messages.push(last);
        assert(s[0] == last);
        assert(s.drop_first() =~= Seq::<BusMessage<T>>::empty());
        assert(spec_sent_actions(Seq::<BusMessage<T>>::empty()) == Seq::<PeaksAction<T>>::empty());
        assert(spec_sent_actions(s) =~= seq![PeaksAction::<T>::Eos]);
    } else {
        let s = messages.push(last);
        assert(s[0] == messages[0]);
        assert(s.drop_first() =~= messages.drop_first().push(last));
        lemma_sent_then_end(messages.drop_first(), last);
    }
}

/// The peaks gathered from a decoding run are the level pairs of the bus, in the
/// order they were posted: the pipeline posts level and other messages, then
/// its end or an error; the watch forwards what it decides to send, the
/// generator receives it after starting a generation, and other messages add
/// nothing.
pub proof fn lemma_bus_run_gathers_levels<T>(messages: Seq<BusMessage<T>>, last: BusMessage<T>)
    requires
        forall|i: int| 0 <= i < messages.len() ==> is_mid_stream(#[trigger] messages[i]),
        last is Eos || last is Error,
    ensures
        spec_receive_all(Some(Seq::<(T, T)>::empty()), spec_sent_actions(messages))
            == Some(spec_level_pairs(messages)),
        spec_receive_all(Some(Seq::<(T, T)>::empty()), spec_sent_actions(messages.push(last)))
            == Some(spec_level_pairs(messages)),
        !spec_bus_reply(true, last).keep_watching,
{
    lemma_sent_mid_stream(messages);
    lemma_peaks_gathered_in_order(spec_level_pairs(messages));
    lemma_sent_then_end(messages, last);
    let sent = spec_sent_actions(messages);
    lemma_receive_all_concat(Some(Seq::<(T, T)>::empty()), sent, seq![PeaksAction::<T>::Eos]);
    assert(sent.push(PeaksAction::<T>::Eos) == sent + seq![PeaksAction::<T>::Eos]);
    let e = seq![PeaksAction::<T>::Eos];
    let gathered = Some(spec_level_pairs(messages));
    assert(e.drop_first() =~= Seq::<PeaksAction<T>>::empty());
    assert(spec_receive(gathered, e[0]) == gathered);
    assert(spec_receive_all(gathered, Seq::<PeaksAction<T>>::empty()) == gathered);
    assert(spec_receive_all(gathered, e) == gathered);
}


/// Once the pipeline is gone, the watch stops on any message without sending
/// anything or touching a pipeline state; while it lives, the watch stops only
/// at the end of the stream or an error, and then sends the end of the stream.
pub proof fn lemma_gone_pipeline_is_silent<T>(pipeline_alive: bool, message: BusMessage<T>)
    ensures
        !pipeline_alive ==> ({
            let r = spec_bus_reply(pipeline_alive, message);
            r.send is None && r.set_state is None && !r.keep_watching
        }),
        pipeline_alive ==> ({
            let r = spec_bus_reply(pipeline_alive, message);
            !r.keep_watching <==> (message is Eos || message is Error)
        }),
        pipeline_alive && (message is Eos || message is Error) ==> spec_bus_reply(
            pipeline_alive,
            message,
        ).send matches Some(PeaksAction::Eos),
{
}

} // verus!
