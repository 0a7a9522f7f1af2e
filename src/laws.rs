use vstd::prelude::*;

use crate::format::FrameFormat;
use crate::process::ProcessStatus;
use crate::sink::{FlowError, SinkModel};

verus! {

/// What one render call meets: the answer of the liveness query, the
/// frame, and whether writing it succeeded.
pub struct RenderEvent {
    pub status: ProcessStatus,
    pub frame: Seq<u8>,
    pub write_ok: bool,
}

/// The state after a series of render calls, one per event, in order.
pub open spec fn render_each(s: SinkModel, events: Seq<RenderEvent>) -> SinkModel
    decreases events.len(),
{
    if events.len() == 0 {
        s
    } else {
        let e = events.last();
        render_each(s, events.drop_last()).render(e.status, e.frame, e.write_ok).0
    }
}

/// Render events in which the subprocess is alive and every write succeeds.
pub open spec fn smooth(frames: Seq<Seq<u8>>) -> Seq<RenderEvent> {
    frames.map_values(|f: Seq<u8>| RenderEvent { status: ProcessStatus::Running, frame: f, write_ok: true })
}

/// Render calls keep the configuration, and a subprocess once attached
/// stays attached until stop.
pub proof fn lemma_render_keeps_process(s: SinkModel, events: Seq<RenderEvent>)
    requires
        s.has_process(),
    ensures
        render_each(s, events).has_process(),
        render_each(s, events).cmd == s.cmd,
        render_each(s, events).wait_for_exit == s.wait_for_exit,
    decreases events.len(),
{
    if events.len() > 0 {
        lemma_render_keeps_process(s, events.drop_last());
    }
}

/// A full run cycle (negotiate a valid layout, start a non-empty command,
/// render any frames, stop) ends in the idle state with the configuration
/// it began with: no layout, no subprocess.
pub proof fn lemma_run_cycle_returns_to_idle(
    s: SinkModel,
    format: FrameFormat,
    events: Seq<RenderEvent>,
)
    requires
        !s.has_process(),
        format.valid(),
        s.cmd.len() > 0,
    ensures
        ({
            let negotiated = s.negotiate(Some(format));
            let started = negotiated.0.started(true);
            let rendered = render_each(started.0, events);
            &&& negotiated.1 is Ok
            &&& started.1 is Ok
            &&& rendered.stop().1 == Some(s.wait_for_exit)
            &&& rendered.stop().0 == SinkModel::idle(s.cmd, s.wait_for_exit)
        }),
{
    let started = s.negotiate(Some(format)).0.started(true).0;
    lemma_render_keeps_process(started, events);
}

/// Stop without a subprocess succeeds and changes nothing.
pub proof fn lemma_stop_without_process_is_noop(s: SinkModel)
    requires
        !s.has_process(),
    ensures
        s.stop() == (s, None::<u64>),
{
}

/// A second stop right after a first one changes nothing.
pub proof fn lemma_stop_is_idempotent(s: SinkModel)
    ensures
        s.stop().0.stop() == (s.stop().0, None::<u64>),
{
}

/// While the subprocess keeps running and accepts every write, each render
/// call succeeds and the subprocess receives exactly the frames'
/// bytes, in the order of the calls, with nothing in between.
pub proof fn lemma_delivery_in_order(s: SinkModel, frames: Seq<Seq<u8>>)
    requires
        s.may_render() is Ok,
    ensures
        render_each(s, smooth(frames)).may_render() is Ok,
        render_each(s, smooth(frames)).delivered == s.delivered + frames.flatten_alt(),
        forall|i: int|
            0 <= i < frames.len() ==> (#[trigger] render_each(s, smooth(frames).take(i))).render(
                ProcessStatus::Running,
                frames[i],
                true,
            ).1 is Ok,
    decreases frames.len(),
{
    if frames.len() > 0 {
        let init = frames.drop_last();
        assert(smooth(frames).drop_last() =~= smooth(init));
        lemma_delivery_in_order(s, init);
        assert(s.delivered + frames.flatten_alt() =~= s.delivered + init.flatten_alt() + frames.last());
        assert forall|i: int| 0 <= i < frames.len() implies (#[trigger] render_each(
            s,
            smooth(frames).take(i),
        )).render(ProcessStatus::Running, frames[i], true).1 is Ok by {
            if i < init.len() {
                assert(smooth(frames).take(i) =~= smooth(init).take(i));
                assert(init[i] == frames[i]);
            } else {
                assert(smooth(frames).take(i) =~= smooth(init));
            }
        }
    }
}

/// The bytes of `n` frames of `size` bytes each number exactly `n * size`.
pub proof fn lemma_flat_length(frames: Seq<Seq<u8>>, size: nat)
    requires
        forall|i: int| 0 <= i < frames.len() ==> (#[trigger] frames[i]).len() == size,
    ensures
        frames.flatten_alt().len() == frames.len() * size,
    decreases frames.len(),
{
    if frames.len() > 0 {
        let init = frames.drop_last();
        assert forall|i: int| 0 <= i < init.len() implies (#[trigger] init[i]).len() == size by {
            assert(init[i] == frames[i]);
        }
        lemma_flat_length(init, size);
        assert(frames.len() * size == init.len() * size + size) by (nonlinear_arith)
            requires
                frames.len() == init.len() + 1,
        ;
    }
}

/// From the start of a run cycle, `n` successful render calls of `size`
/// bytes each hand the subprocess exactly `n * size` bytes.
pub proof fn lemma_byte_count(s: SinkModel, frames: Seq<Seq<u8>>, size: nat)
    requires
        s.may_render() is Ok,
        s.delivered.len() == 0,
        forall|i: int| 0 <= i < frames.len() ==> (#[trigger] frames[i]).len() == size,
    ensures
        render_each(s, smooth(frames)).delivered.len() == frames.len() * size,
{
    lemma_delivery_in_order(s, frames);
    lemma_flat_length(frames, size);
}

/// A render call that finds the subprocess gone, or cannot ask it, fails
/// with a fatal error and leaves the sink faulted; no byte is delivered.
pub proof fn lemma_exit_is_fatal(s: SinkModel, status: ProcessStatus, frame: Seq<u8>, write_ok: bool)
    requires
        s.may_render() is Ok,
        !status.is_alive(),
    ensures
        s.render(status, frame, write_ok) == (s.faulted(), Err::<(), FlowError>(FlowError::Error)),
        s.faulted().delivered == s.delivered,
{
}

/// Once faulted, every later render call fails at once, whatever the
/// subprocess would answer, and changes nothing, until stop.
pub proof fn lemma_fault_is_sticky(
    s: SinkModel,
    status: ProcessStatus,
    frame: Seq<u8>,
    write_ok: bool,
    events: Seq<RenderEvent>,
)
    requires
        s.phase is Faulted,
    ensures
        s.render(status, frame, write_ok).0 == s,
        s.render(status, frame, write_ok).1 is Err,
        render_each(s, events) == s,
    decreases events.len(),
{
    if events.len() > 0 {
        lemma_fault_is_sticky(s, status, frame, write_ok, events.drop_last());
    }
}

} // verus!
