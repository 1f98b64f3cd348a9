//! Working through the command queue.
//!
//! The queue is handled token by token until it is used up, a token asks to
//! listen, or a token is unknown. What comes out is a plan: the payloads of
//! each handled token with the pause that follows them, and how the queue
//! ended. The caller sends, sleeps and, if asked to, listens.

use vstd::prelude::*;
use crate::codes::{
    lemma_resolve_exact, lemma_reveal_names, spec_is_listen_token, spec_is_text_end, spec_resolve,
    ControlCode,
};
use crate::config::Args;
use crate::engine::{spec_outbound, OutboundAction, OutboundOutcome, ProtocolEngine};
use crate::error::ProtocolError;
use crate::payload::{spec_raw_text, spec_signal, views, Payload, PayloadView};
use crate::text::texts;

verus! {

/// What one handled token asks for: its payloads, in order, and the pause
/// after them before the next token is looked at.
#[derive(Clone, Debug, PartialEq, Eq)]
pub struct Step {
    pub payloads: Vec<Payload>,
    pub pause_ms: u64,
}

/// How the work on the queue ended.
#[derive(Clone, Debug, PartialEq, Eq)]
pub enum QueueEnd {
    /// Every token was handled.
    Exhausted,
    /// A token asked to listen; the tokens after it are never handled.
    Listen,
    /// A token was unknown; the tokens after it are never handled.
    Failed(ProtocolError),
}

/// The plan for a queue.
#[derive(Clone, Debug, PartialEq, Eq)]
pub struct QueueRun {
    pub steps: Vec<Step>,
    pub end: QueueEnd,
}

/// How the work on a queue ended, as plain values.
pub enum EndView {
    Exhausted,
    Listen,
    Unknown(Seq<char>),
}

/// The plan for a queue as plain values, with the text mode at its end.
pub struct RunView {
    pub steps: Seq<Seq<PayloadView>>,
    pub end: EndView,
    pub text_mode: bool,
}

/// The payloads of each step of a list, as plain values.
pub open spec fn step_views(steps: Seq<Step>) -> Seq<Seq<PayloadView>> {
    steps.map_values(|s: Step| views(s.payloads@))
}

/// A run with some earlier steps put in front of it.
pub open spec fn after_steps(earlier: Seq<Seq<PayloadView>>, rest: RunView) -> RunView {
    RunView { steps: earlier + rest.steps, end: rest.end, text_mode: rest.text_mode }
}

/// The plan for a queue: the tokens are handled in order from the given text
/// mode, and the first that asks to listen or is unknown ends the work.
pub open spec fn spec_run(text_mode: bool, tokens: Seq<Seq<char>>) -> RunView
    decreases tokens.len(),
{
    if tokens.len() == 0 {
        RunView { steps: seq![], end: EndView::Exhausted, text_mode }
    } else {
        let step = spec_outbound(text_mode, tokens[0]);
        match step.outcome {
            OutboundOutcome::Send(payloads) => after_steps(
                seq![payloads],
                spec_run(step.text_mode, tokens.drop_first()),
            ),
            OutboundOutcome::Listen => RunView {
                steps: seq![],
                end: EndView::Listen,
                text_mode: step.text_mode,
            },
            OutboundOutcome::Unknown => RunView {
                steps: seq![],
                end: EndView::Unknown(tokens[0]),
                text_mode: step.text_mode,
            },
        }
    }
}

/// Whether an end is the given one.
pub open spec fn end_is(end: QueueEnd, view: EndView) -> bool {
    match view {
        EndView::Exhausted => end is Exhausted,
        EndView::Listen => end is Listen,
        EndView::Unknown(token) => end matches QueueEnd::Failed(
            ProtocolError::UnknownCommand(unknown),
        ) && unknown@ == token,
    }
}

/// A queue that is worked through to its end can be cut anywhere: the plan
/// for the whole is the plan for the first part, then the plan for the
/// second part from the text mode that the first part ends in.
pub proof fn lemma_run_in_two(text_mode: bool, first: Seq<Seq<char>>, second: Seq<Seq<char>>)
    requires
        spec_run(text_mode, first).end is Exhausted,
    ensures
        spec_run(text_mode, first + second) == after_steps(
            spec_run(text_mode, first).steps,
            spec_run(spec_run(text_mode, first).text_mode, second),
        ),
    decreases first.len(),
{
    if first.len() == 0 {
        assert(first + second =~= second);
        assert(after_steps(seq![], spec_run(text_mode, second)).steps =~= spec_run(
            text_mode,
            second,
        ).steps);
    } else {
        let whole = first + second;
        let step = spec_outbound(text_mode, first[0]);
        assert(whole[0] == first[0]);
        assert(whole.drop_first() =~= first.drop_first() + second);
        match step.outcome {
            OutboundOutcome::Send(payloads) => {
                lemma_run_in_two(step.text_mode, first.drop_first(), second);
                let head = spec_run(step.text_mode, first.drop_first());
                let tail = spec_run(head.text_mode, second);
                assert(seq![payloads] + (head.steps + tail.steps) =~= (seq![payloads]
                    + head.steps) + tail.steps);
            },
            _ => {},
        }
    }
}

/// In text mode, strings that do not close it go out one by one, each as it
/// is, and the mode stays.
pub proof fn lemma_raw_strings_pass(raws: Seq<Seq<char>>)
    requires
        forall|i: int| 0 <= i < raws.len() ==> !spec_is_text_end(#[trigger] raws[i]),
    ensures
        spec_run(true, raws) == (RunView {
            steps: raws.map_values(|raw: Seq<char>| seq![spec_raw_text(raw)]),
            end: EndView::Exhausted,
            text_mode: true,
        }),
    decreases raws.len(),
{
    let each = |raw: Seq<char>| seq![spec_raw_text(raw)];
    if raws.len() == 0 {
        assert(spec_run(true, raws).steps =~= raws.map_values(each));
    } else {
        assert(!spec_is_text_end(raws[0]));
        let rest = raws.drop_first();
        assert forall|i: int| 0 <= i < rest.len() implies !spec_is_text_end(
            #[trigger] rest[i],
        ) by {
            assert(rest[i] == raws[i + 1]);
        }
        lemma_raw_strings_pass(rest);
        assert(seq![each(raws[0])] + rest.map_values(each) =~= raws.map_values(each));
    }
}

/// A text block goes out as it was written.
///
/// A queue that opens text mode, holds any strings that do not close it, and
/// then closes it sends the opening code once, at the start; then every
/// string as it is, in order; then the closing token as it is, and after it
/// the closing code, once. The queue is used up and text mode is over.
pub proof fn lemma_text_block(opener: Seq<char>, raws: Seq<Seq<char>>, closer: Seq<char>)
    requires
        ControlCode::Stx.answers_to(opener),
        forall|i: int| 0 <= i < raws.len() ==> !spec_is_text_end(#[trigger] raws[i]),
        spec_is_text_end(closer),
    ensures
        spec_run(false, seq![opener] + raws + seq![closer]) == (RunView {
            steps: seq![seq![spec_signal(ControlCode::Stx)]] + raws.map_values(
                |raw: Seq<char>| seq![spec_raw_text(raw)],
            ) + seq![seq![spec_raw_text(closer), spec_signal(ControlCode::Etx)]],
            end: EndView::Exhausted,
            text_mode: false,
        }),
{
    let each = |raw: Seq<char>| seq![spec_raw_text(raw)];
    let open = seq![opener];
    let close = seq![closer];
    lemma_resolve_exact(opener, ControlCode::Stx);
    lemma_reveal_names();
    assert(!spec_is_listen_token(opener));
    // the opening token
    assert(open.drop_first() =~= Seq::<Seq<char>>::empty());
    assert(spec_run(true, open.drop_first()).steps =~= Seq::<Seq<PayloadView>>::empty());
    assert(spec_run(false, open) == (RunView {
        steps: seq![seq![spec_signal(ControlCode::Stx)]],
        end: EndView::Exhausted,
        text_mode: true,
    })) by {
        assert(seq![seq![spec_signal(ControlCode::Stx)]] + Seq::<Seq<PayloadView>>::empty()
            =~= seq![seq![spec_signal(ControlCode::Stx)]]);
    }
    // the closing token
    assert(close.drop_first() =~= Seq::<Seq<char>>::empty());
    assert(spec_run(false, close.drop_first()).steps =~= Seq::<Seq<PayloadView>>::empty());
    assert(spec_run(true, close) == (RunView {
        steps: seq![seq![spec_raw_text(closer), spec_signal(ControlCode::Etx)]],
        end: EndView::Exhausted,
        text_mode: false,
    })) by {
        assert(seq![seq![spec_raw_text(closer), spec_signal(ControlCode::Etx)]] + Seq::<
            Seq<PayloadView>,
        >::empty() =~= seq![seq![spec_raw_text(closer), spec_signal(ControlCode::Etx)]]);
    }
    lemma_raw_strings_pass(raws);
    lemma_run_in_two(true, raws, close);
    lemma_run_in_two(false, open, raws + close);
    assert(open + (raws + close) =~= open + raws + close);
    assert(seq![seq![spec_signal(ControlCode::Stx)]] + (raws.map_values(each) + seq![
        seq![spec_raw_text(closer), spec_signal(ControlCode::Etx)],
    ]) =~= seq![seq![spec_signal(ControlCode::Stx)]] + raws.map_values(each) + seq![
        seq![spec_raw_text(closer), spec_signal(ControlCode::Etx)],
    ]);
}

/// An unknown token ends the work on the queue.
///
/// Where the tokens before it were all handled and left text mode off, a
/// token that neither asks to listen nor names a code adds no step of its
/// own, and whatever follows it in the queue changes nothing: the plan holds
/// the steps of the earlier tokens and ends on the unknown one.
pub proof fn lemma_unknown_token_aborts(
    text_mode: bool,
    handled: Seq<Seq<char>>,
    unknown: Seq<char>,
    remaining: Seq<Seq<char>>,
)
    requires
        spec_run(text_mode, handled).end is Exhausted,
        !spec_run(text_mode, handled).text_mode,
        !spec_is_listen_token(unknown),
        spec_resolve(unknown) is None,
    ensures
        spec_run(text_mode, handled + seq![unknown] + remaining) == (RunView {
            steps: spec_run(text_mode, handled).steps,
            end: EndView::Unknown(unknown),
            text_mode: false,
        }),
{
    let tail = seq![unknown] + remaining;
    assert(tail[0] == unknown);
    lemma_run_in_two(text_mode, handled, tail);
    assert(handled + tail =~= handled + seq![unknown] + remaining);
    assert(spec_run(text_mode, handled).steps + Seq::<Seq<PayloadView>>::empty() =~= spec_run(
        text_mode,
        handled,
    ).steps);
}

/// Works through the configured command queue.
///
/// The plan is the one that `spec_run` gives for the queue from the text
/// mode that the engine is in; every step is followed by the configured
/// delay. The engine ends in the text mode that the plan ends in, and
/// listens if the plan ends on the order to listen.
pub fn dispatch_queue(engine: &mut ProtocolEngine, args: &Args) -> (run: QueueRun)
    ensures
        step_views(run.steps@) == spec_run(old(engine).text_mode, texts(args.commands@)).steps,
        end_is(run.end, spec_run(old(engine).text_mode, texts(args.commands@)).end),
        forall|i: int| 0 <= i < run.steps@.len() ==> run.steps@[i].pause_ms == args.delay,
        final(engine).text_mode == spec_run(
            old(engine).text_mode,
            texts(args.commands@),
        ).text_mode,
        final(engine).listening == (old(engine).listening || run.end is Listen),
{
    let ghost start = engine.text_mode;
    let ghost was_listening = engine.listening;
    let ghost tokens = texts(args.commands@);
    let mut steps: Vec<Step> = Vec::new();
    let mut i: usize = 0;
    proof {
        assert(tokens.skip(0) =~= tokens);
        assert(step_views(steps@) + spec_run(start, tokens).steps =~= spec_run(
            start,
            tokens,
        ).steps);
    }
    while i < args.commands.len()
        invariant
            i <= args.commands.len(),
            tokens == texts(args.commands@),
            start == old(engine).text_mode,
            was_listening == old(engine).listening,
            engine.listening == was_listening,
            spec_run(start, tokens) == after_steps(
                step_views(steps@),
                spec_run(engine.text_mode, tokens.skip(i as int)),
            ),
            forall|k: int| 0 <= k < steps@.len() ==> steps@[k].pause_ms == args.delay,
        decreases args.commands.len() - i,
    {
        let ghost before = step_views(steps@);
        let ghost mode = engine.text_mode;
        let ghost left = tokens.skip(i as int);
        proof {
            assert(left[0] == args.commands@[i as int]@);
            assert(left.drop_first() =~= tokens.skip(i + 1));
        }
        match engine.handle_outbound(args.commands[i].as_str()) {
            Ok(OutboundAction::Send(payloads)) => {
                let ghost sent = views(payloads@);
                steps.push(Step { payloads, pause_ms: args.delay });
                proof {
                    let rest = spec_run(engine.text_mode, tokens.skip(i + 1));
                    assert(step_views(steps@) =~= before + seq![sent]);
                    assert(before + (seq![sent] + rest.steps) =~= (before + seq![sent])
                        + rest.steps);
                }
            },
            Ok(OutboundAction::Listen) => {
                proof {
                    assert(before + Seq::<Seq<PayloadView>>::empty() =~= before);
                }
                return QueueRun { steps, end: QueueEnd::Listen };
            },
            Err(failure) => {
                proof {
                    assert(before + Seq::<Seq<PayloadView>>::empty() =~= before);
                }
                return QueueRun { steps, end: QueueEnd::Failed(failure) };
            },
        }
        i += 1;
    }
    proof {
        assert(tokens.skip(i as int) =~= Seq::<Seq<char>>::empty());
        assert(step_views(steps@) + Seq::<Seq<PayloadView>>::empty() =~= step_views(steps@));
    }
    QueueRun { steps, end: QueueEnd::Exhausted }
}

} // verus!
