//! The input relay: it polls the terminal for one byte at a time,
//! translates each byte it gets, and forwards the translated byte both
//! to the transcript and to the child's input, in arrival order.

use vstd::prelude::*;
use crate::translate::{spec_translate, translate_byte};

verus! {

/// One poll of the terminal's input: either no byte was available
/// right now, or one byte arrived.
#[derive(Clone, Copy, PartialEq, Eq, Debug)]
pub enum PollEvent {
    NoData,
    Byte(u8),
}

/// What the relay does after one poll: pause briefly and poll again
/// (never terminate, never spin unboundedly), or deliver the
/// translated byte to the transcript and to the child's input.
#[derive(Clone, Copy, PartialEq, Eq, Debug)]
pub enum InputAction {
    Pause,
    Deliver(u8),
}

/// The relay's decision for one poll result: no data means pause and
/// retry; a byte is translated and delivered.
pub open spec fn spec_input_action(ev: PollEvent) -> InputAction {
    match ev {
        PollEvent::NoData => InputAction::Pause,
        PollEvent::Byte(b) => InputAction::Deliver(spec_translate(b)),
    }
}

/// The bytes a sequence of polls delivers: the translation of each
/// byte that arrived, in arrival order; polls that found no data
/// deliver nothing.
pub open spec fn spec_deliveries(events: Seq<PollEvent>) -> Seq<u8>
    decreases events.len(),
{
    if events.len() == 0 {
        Seq::empty()
    } else {
        let rest = spec_deliveries(events.drop_last());
        match events.last() {
            PollEvent::NoData => rest,
            PollEvent::Byte(b) => rest.push(spec_translate(b)),
        }
    }
}

/// Decide the relay's response to one poll result.
pub fn input_step(ev: PollEvent) -> (r: InputAction)
    ensures
        r == spec_input_action(ev),
{
    match ev {
        PollEvent::NoData => InputAction::Pause,
        PollEvent::Byte(b) => InputAction::Deliver(translate_byte(b)),
    }
}

/// The state of one relay run: the transcript recorded so far and the
/// bytes forwarded to the child's input so far. Both sequences always
/// hold exactly the translated bytes delivered so far, so the
/// transcript never lags behind, or runs ahead of, what the child
/// received.
pub struct InputRelay {
    /// The bytes appended to the transcript file, in order.
    pub transcript: Vec<u8>,
    /// The bytes written to the child's input, in order.
    pub forwarded: Vec<u8>,
}

impl InputRelay {
    /// A relay always records exactly what it forwarded.
    pub open spec fn wf(self) -> bool {
        self.transcript@ == self.forwarded@
    }

    /// Start a run with a fresh, empty transcript: nothing from any
    /// earlier run is retained.
    pub fn new() -> (r: InputRelay)
        ensures
            r.transcript@ == Seq::<u8>::empty(),
            r.forwarded@ == Seq::<u8>::empty(),
            r.wf(),
    {
        InputRelay { transcript: Vec::new(), forwarded: Vec::new() }
    }

    /// Handle one poll result: no data leaves the run untouched and
    /// asks the caller to pause; a byte is translated and appended to
    /// both the transcript and the child-bound stream.
    pub fn handle(&mut self, ev: PollEvent) -> (r: InputAction)
        ensures
            r == spec_input_action(ev),
            ev is NoData ==> final(self).transcript@ == old(self).transcript@
                && final(self).forwarded@ == old(self).forwarded@,
            ev matches PollEvent::Byte(b) ==> final(self).transcript@ == old(
                self,
            ).transcript@.push(spec_translate(b)) && final(self).forwarded@ == old(
                self,
            ).forwarded@.push(spec_translate(b)),
            old(self).wf() ==> final(self).wf(),
    {
        match ev {
            PollEvent::NoData => InputAction::Pause,
            PollEvent::Byte(b) => {
                let t = translate_byte(b);
                self.transcript.push(t);
                self.forwarded.push(t);
                InputAction::Deliver(t)
            },
        }
    }

    /// Handle a whole sequence of poll results in order. The
    /// transcript and the child-bound stream each grow by exactly the
    /// translation of the bytes that arrived, in arrival order — no
    /// drops, no duplicates — however many empty polls stood between
    /// them.
    pub fn run(&mut self, events: &Vec<PollEvent>)
        ensures
            final(self).transcript@ == old(self).transcript@ + spec_deliveries(events@),
            final(self).forwarded@ == old(self).forwarded@ + spec_deliveries(events@),
            old(self).wf() ==> final(self).wf(),
    {
        let mut i: usize = 0;
        while i < events.len()
            invariant
                i <= events.len(),
                self.transcript@ == old(self).transcript@ + spec_deliveries(events@.take(i as int)),
                self.forwarded@ == old(self).forwarded@ + spec_deliveries(events@.take(i as int)),
            decreases events.len() - i,
        {
            let ev = events[i];
            proof {
                assert(events@.take(i as int + 1).drop_last() =~= events@.take(i as int));
                assert(events@.take(i as int + 1).last() == ev);
            }
            self.handle(ev);
            proof {
                assert(self.transcript@ =~= old(self).transcript@ + spec_deliveries(
                    events@.take(i as int + 1),
                ));
                assert(self.forwarded@ =~= old(self).forwarded@ + spec_deliveries(
                    events@.take(i as int + 1),
                ));
            }
            i = i + 1;
        }
        proof {
            assert(events@.take(events@.len() as int) =~= events@);
        }
    }
}

/// Transcript fidelity: when every poll finds a byte, the delivered
/// sequence is exactly the translation of each input byte, in the
/// original order, with no drops and no duplicates.
pub proof fn lemma_transcript_fidelity(input: Seq<u8>)
    ensures
        spec_deliveries(input.map_values(|b: u8| PollEvent::Byte(b))) == input.map_values(
            |b: u8| spec_translate(b),
        ),
    decreases input.len(),
{
    let events = input.map_values(|b: u8| PollEvent::Byte(b));
    let expected = input.map_values(|b: u8| spec_translate(b));
    if input.len() == 0 {
        assert(spec_deliveries(events) =~= expected);
    } else {
        lemma_transcript_fidelity(input.drop_last());
        assert(events.drop_last() =~= input.drop_last().map_values(|b: u8| PollEvent::Byte(b)));
        assert(events.last() == PollEvent::Byte(input.last()));
        assert(spec_deliveries(events) =~= expected);
    }
}

/// Empty polls deliver nothing and never end the run: interleaving
/// any number of no-data polls around the same bytes yields the same
/// deliveries, in the same order.
pub proof fn lemma_nodata_transparent(events: Seq<PollEvent>)
    ensures
        spec_deliveries(events) == spec_deliveries(
            events.filter(|ev: PollEvent| ev is Byte),
        ),
    decreases events.len(),
{
    reveal(Seq::filter);
    let pred = |ev: PollEvent| ev is Byte;
    let kept = events.filter(pred);
    if events.len() == 0 {
        assert(spec_deliveries(events) =~= spec_deliveries(kept));
    } else {
        lemma_nodata_transparent(events.drop_last());
        let kept_rest = events.drop_last().filter(pred);
        match events.last() {
            PollEvent::NoData => {
                assert(kept == kept_rest);
            },
            PollEvent::Byte(b) => {
                assert(kept == kept_rest.push(events.last()));
                assert(kept.drop_last() =~= kept_rest);
                assert(kept.last() == PollEvent::Byte(b));
            },
        }
    }
}

} // verus!
