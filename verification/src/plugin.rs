//! The hot-swap plane: the messages that cross from the background worker
//! to the audio thread, the plugin state owned by the audio thread, and the
//! callback prologue that installs a freshly built convolver.
//!
//! The queue itself is a bounded crossbeam channel; what arrives on it is
//! decided by other threads, so nothing is assumed about which message (if
//! any) a callback sees. [`audio_callback`] instead takes the polled message
//! as an argument and its contract pins the output for every case: each
//! callback is produced entirely by one convolver — the newly installed one
//! when a set of engines was pending, the previous one otherwise.

use vstd::prelude::*;

use crate::convolution::{
    active_count, engine_process, fresh_engine_view, spec_min, Convolution, ConvolutionEngine,
    EngineView,
};

verus! {

/// What the worker sends to the audio thread: raw impulse bytes to be
/// decoded off-thread, or a freshly built set of per-channel engines.
pub enum Message {
    Impulse(Vec<u8>),
    Engine(Vec<ConvolutionEngine>),
}

#[verifier::external_type_specification]
#[verifier::external_body]
#[verifier::reject_recursive_types(T)]
pub struct ExSender<T>(crossbeam::channel::Sender<T>);

/// The engines the audio thread runs for this callback: the pending set if
/// one was enqueued, the previously installed one otherwise.
pub open spec fn installed_views(prior: Seq<EngineView>, msg: Option<Message>) -> Seq<EngineView> {
    match msg {
        Some(Message::Engine(es)) => es@.map_values(|e: ConvolutionEngine| e@),
        Some(Message::Impulse(b)) => prior,
        None => prior,
    }
}

/// The audio-thread half of the plugin: the installed convolver and the
/// host configuration.
pub struct AudioPlugin {
    convolution_node: Convolution,
    sample_rate: usize,
    buffer_size: usize,
    input_buffer: Vec<u32>,
}

impl AudioPlugin {
    /// The installed convolver.
    pub closed spec fn node(&self) -> Convolution {
        self.convolution_node
    }

    pub closed spec fn wf(&self) -> bool {
        self.convolution_node.wf()
    }

    pub fn new() -> (r: AudioPlugin)
        ensures
            r.wf(),
            !r.node().has_engines(),
            r.node().channels() == 0,
            r.node().max_block() == 1024,
            r.node().engine_views() == Seq::<EngineView>::empty(),
    {
        AudioPlugin {
            convolution_node: Convolution::new(1024),
            sample_rate: 0,
            buffer_size: 0,
            input_buffer: Vec::new(),
        }
    }

    /// Installs a freshly built set of engines. The replaced engines are
    /// dropped here, in place: releasing a convolver is plain deallocation,
    /// taken to be safe on the calling thread.
    pub fn swap(&mut self, engines: Vec<ConvolutionEngine>)
        requires
            old(self).wf(),
            engines@.len() <= 2,
            forall|i: int| 0 <= i < engines@.len() ==> (#[trigger] engines@[i]).wf(),
        ensures
            final(self).wf(),
            final(self).node().max_block() == old(self).node().max_block(),
            final(self).node().has_engines(),
            final(self).node().channels() == engines@.len(),
            final(self).node().stereo() == (engines@.len() == 2),
            final(self).node().engine_views()
                == engines@.map_values(|e: ConvolutionEngine| e@),
    {
        self.convolution_node.swap(engines);
    }

    /// Processes one block through the installed convolver; see
    /// [`Convolution::process`].
    pub fn process(&mut self, input: &Vec<Vec<u32>>, output: &mut Vec<Vec<u32>>)
        requires
            old(self).wf(),
            forall|j: int| 0 <= j < active_count(
                old(self).node().engine_views().len() as int,
                input@.len() as int,
                old(output)@.len() as int,
            ) ==> (#[trigger] input@[j])@.len() == old(output)@[j]@.len(),
        ensures
            final(self).wf(),
            final(self).node().max_block() == old(self).node().max_block(),
            final(self).node().has_engines() == old(self).node().has_engines(),
            final(self).node().channels() == old(self).node().channels(),
            final(self).node().stereo() == old(self).node().stereo(),
            final(self).node().engine_views().len() == old(self).node().engine_views().len(),
            final(output)@.len() == old(output)@.len(),
            ({
                let n = active_count(
                    old(self).node().engine_views().len() as int,
                    input@.len() as int,
                    old(output)@.len() as int,
                );
                &&& forall|j: int| 0 <= j < n ==> (#[trigger] final(output)@[j])@
                    == engine_process(old(self).node().engine_views()[j], input@[j]@).1
                &&& forall|j: int| 0 <= j < n ==> (#[trigger] final(self).node().engine_views()[j])
                    == engine_process(old(self).node().engine_views()[j], input@[j]@).0
                &&& forall|j: int| n <= j < old(output)@.len() ==> (#[trigger] final(output)@[j])
                    == old(output)@[j]
                &&& forall|j: int| n <= j < old(self).node().engine_views().len()
                    ==> (#[trigger] final(self).node().engine_views()[j])
                        == old(self).node().engine_views()[j]
            }),
    {
        self.convolution_node.process(input, output);
    }
}

/// The engine set the background task builds from decoded impulse data: one
/// engine per channel against the host's maximum block size, keeping at
/// most the first two channels.
#[verifier::loop_isolation(false)]
pub fn build_engines(channels: &Vec<Vec<u32>>, max_block_size: usize) -> (r: Vec<ConvolutionEngine>)
    requires
        1 <= max_block_size <= usize::MAX / 16,
        forall|i: int| 0 <= i < spec_min(channels@.len() as int, 2)
            ==> 1 <= (#[trigger] channels@[i])@.len() <= usize::MAX / 16,
    ensures
        r@.len() == spec_min(channels@.len() as int, 2),
        forall|i: int| 0 <= i < r@.len() ==> (#[trigger] r@[i]).wf(),
        forall|i: int| 0 <= i < r@.len() ==> (#[trigger] r@[i])@
            == fresh_engine_view(channels@[i]@, max_block_size as int),
{
    let total = channels.len();
    let length = if total > 2 {
        2
    } else {
        total
    };
    let mut engines: Vec<ConvolutionEngine> = Vec::new();
    let mut i: usize = 0;
    while i < length
        invariant
            i <= length,
            engines@.len() == i,
            forall|j: int| 0 <= j < i ==> (#[trigger] engines@[j]).wf(),
            forall|j: int| 0 <= j < i ==> (#[trigger] engines@[j])@
                == fresh_engine_view(channels@[j]@, max_block_size as int),
        decreases length - i,
    {
        engines.push(ConvolutionEngine::new(&channels[i], max_block_size));
        i = i + 1;
    }
    engines
}

/// One audio callback: act on at most one message pulled from the hot-swap
/// queue, then process the block.
///
/// The contract is the atomicity of the hot swap: every output plane of the
/// callback is produced entirely by [`installed_views`] — the pending
/// engines if a set was enqueued, the previously installed convolver
/// otherwise — so no callback mixes two convolvers. Raw impulse bytes are
/// handed back to the caller for decoding off the audio thread; they never
/// change this callback's output.
pub fn audio_callback(
    plugin: &mut AudioPlugin,
    msg: Option<Message>,
    input: &Vec<Vec<u32>>,
    output: &mut Vec<Vec<u32>>,
) -> (r: Option<Vec<u8>>)
    requires
        old(plugin).wf(),
        msg matches Some(Message::Engine(es)) ==> es@.len() <= 2
            && forall|i: int| 0 <= i < es@.len() ==> (#[trigger] es@[i]).wf(),
        forall|j: int| 0 <= j < active_count(
            installed_views(old(plugin).node().engine_views(), msg).len() as int,
            input@.len() as int,
            old(output)@.len() as int,
        ) ==> (#[trigger] input@[j])@.len() == old(output)@[j]@.len(),
    ensures
        final(plugin).wf(),
        (match msg {
            Some(Message::Impulse(bytes)) => r == Some(bytes),
            _ => r is None,
        }),
        (match msg {
            Some(Message::Engine(es)) => final(plugin).node().has_engines(),
            _ => final(plugin).node().has_engines() == old(plugin).node().has_engines(),
        }),
        final(plugin).node().max_block() == old(plugin).node().max_block(),
        final(output)@.len() == old(output)@.len(),
        ({
            let views = installed_views(old(plugin).node().engine_views(), msg);
            let n = active_count(
                views.len() as int,
                input@.len() as int,
                old(output)@.len() as int,
            );
            &&& final(plugin).node().engine_views().len() == views.len()
            &&& final(plugin).node().channels() == views.len()
            &&& final(plugin).node().stereo() == (views.len() == 2)
            &&& forall|j: int| 0 <= j < n ==> (#[trigger] final(output)@[j])@
                == engine_process(views[j], input@[j]@).1
            &&& forall|j: int| 0 <= j < n ==> (#[trigger] final(plugin).node().engine_views()[j])
                == engine_process(views[j], input@[j]@).0
            &&& forall|j: int| n <= j < views.len()
                ==> (#[trigger] final(plugin).node().engine_views()[j]) == views[j]
            &&& forall|j: int| n <= j < old(output)@.len() ==> (#[trigger] final(output)@[j])
                == old(output)@[j]
        }),
{
    proof {
        old(plugin).node().lemma_channel_shape();
    }
    let mut pending: Option<Vec<u8>> = None;
    match msg {
        Some(Message::Engine(engines)) => {
            plugin.swap(engines);
        },
        Some(Message::Impulse(bytes)) => {
            pending = Some(bytes);
        },
        None => {},
    }
    plugin.process(input, output);
    pending
}

} // verus!
