//! What a turn of the conversation does with what it is told, from its opening
//! to its end.
use vstd::prelude::*;
use vstd::string::*;

use crate::actions::{Capability, RiskLevel, TaskControlOp};
use crate::agent::orchestrator::{AgentOutcomeView, PendingView};
use crate::agent::types::{AgentContentView, AgentMessageView, AgentRole};
use crate::text::{concat, trim, visible};
use crate::tts::chunker::{released, released_over, the_whole_answer_is_spoken, ChunkerView};
use crate::veronica::turn::{
    closing_effects, final_result, opening_effects, said, ActionResult, AssistantView,
    ContextUpdate, Effect, LanguageDecision, Moved, StageView, TurnEvent, TurnInputView,
    TurnRequestView, TurnView, WithheldView,
};
use crate::veronica::{the_question_comes_last, task_controlled};

verus! {

/// The texts that some effects put on record for a turn, one after the other.
pub open spec fn put_on_record(effects: Seq<Effect<Seq<char>>>, id: Seq<char>) -> Seq<char>
    decreases effects.len(),
{
    if effects.len() == 0 {
        Seq::empty()
    } else {
        match effects.last() {
            Effect::AppendDelta { turn_id, delta } => if turn_id == id {
                put_on_record(effects.drop_last(), id) + delta
            } else {
                put_on_record(effects.drop_last(), id)
            },
            _ => put_on_record(effects.drop_last(), id),
        }
    }
}

/// The texts that some effects show as an answer of a turn, one after the other.
pub open spec fn shown_as_answer(effects: Seq<Effect<Seq<char>>>, id: Seq<char>) -> Seq<char>
    decreases effects.len(),
{
    if effects.len() == 0 {
        Seq::empty()
    } else {
        match effects.last() {
            Effect::Emit { turn_id, event: TurnEvent::AnswerDelta { delta } } => if turn_id == id {
                shown_as_answer(effects.drop_last(), id) + delta
            } else {
                shown_as_answer(effects.drop_last(), id)
            },
            _ => shown_as_answer(effects.drop_last(), id),
        }
    }
}

/// The texts that some effects speak as parts of an answer, in order.
pub open spec fn spoken_parts(effects: Seq<Effect<Seq<char>>>) -> Seq<Seq<char>>
    decreases effects.len(),
{
    if effects.len() == 0 {
        Seq::empty()
    } else {
        match effects.last() {
            Effect::Speak(text) => spoken_parts(effects.drop_last()).push(text),
            _ => spoken_parts(effects.drop_last()),
        }
    }
}

/// The turn after the parts of an answer have come, and the effects of all of
/// them.
pub open spec fn after_deltas(
    turn: TurnView,
    assistant: AssistantView,
    deltas: Seq<Seq<char>>,
) -> (TurnView, Seq<Effect<Seq<char>>>)
    decreases deltas.len(),
{
    if deltas.len() == 0 {
        (turn, Seq::empty())
    } else {
        let moved = turn.step(assistant, TurnInputView::Delta(deltas[0]));
        let rest = after_deltas(moved.turn, assistant, deltas.drop_first());
        (rest.0, moved.step.effects + rest.1)
    }
}

proof fn effects_go_on(
    a: Seq<Effect<Seq<char>>>,
    b: Seq<Effect<Seq<char>>>,
    id: Seq<char>,
)
    ensures
        put_on_record(a + b, id) == put_on_record(a, id) + put_on_record(b, id),
        shown_as_answer(a + b, id) == shown_as_answer(a, id) + shown_as_answer(b, id),
        spoken_parts(a + b) == spoken_parts(a) + spoken_parts(b),
    decreases b.len(),
{
    if b.len() == 0 {
        assert(a + b =~= a);
    } else {
        effects_go_on(a, b.drop_last(), id);
        assert((a + b).drop_last() =~= a + b.drop_last());
    }
    assert(put_on_record(a + b, id) =~= put_on_record(a, id) + put_on_record(b, id));
    assert(shown_as_answer(a + b, id) =~= shown_as_answer(a, id) + shown_as_answer(b, id));
    assert(spoken_parts(a + b) =~= spoken_parts(a) + spoken_parts(b));
}

proof fn spoken_chunks(chunks: Seq<Seq<char>>, id: Seq<char>)
    ensures
        ({
            let effects = chunks.map_values(|c: Seq<char>| Effect::Speak(c));
            &&& spoken_parts(effects) == chunks
            &&& put_on_record(effects, id) == Seq::<char>::empty()
            &&& shown_as_answer(effects, id) == Seq::<char>::empty()
        }),
    decreases chunks.len(),
{
    let effects = chunks.map_values(|c: Seq<char>| Effect::Speak(c));
    if chunks.len() > 0 {
        spoken_chunks(chunks.drop_last(), id);
        assert(effects.drop_last() =~= chunks.drop_last().map_values(
            |c: Seq<char>| Effect::Speak(c),
        ));
    }
    assert(spoken_parts(effects) =~= chunks);
}

proof fn one_delta(turn: TurnView, assistant: AssistantView, delta: Seq<char>)
    requires
        turn.stage is Answering,
    ensures
        ({
            let moved = turn.step(assistant, TurnInputView::Delta(delta));
            let effects = moved.step.effects;
            &&& moved.assistant == assistant
            &&& moved.turn.stage is Answering
            &&& moved.turn.id == turn.id
            &&& moved.turn.voice == turn.voice
            &&& moved.step.request is Wait
            &&& put_on_record(effects, turn.id) == delta
            &&& shown_as_answer(effects, turn.id) == delta
            &&& turn.voice ==> {
                &&& spoken_parts(effects) == released(turn.chunker.with(delta)).0
                &&& moved.turn.chunker == released(turn.chunker.with(delta)).1
            }
            &&& !turn.voice ==> spoken_parts(effects).len() == 0
        }),
{
    let moved = turn.step(assistant, TurnInputView::Delta(delta));
    let effects = moved.step.effects;
    let first = Effect::AppendDelta { turn_id: turn.id, delta };
    let second = Effect::Emit { turn_id: turn.id, event: TurnEvent::AnswerDelta { delta } };
    let shown = seq![first, second];
    let one = seq![first];
    let none = Seq::<Effect<Seq<char>>>::empty();
    let empty = Seq::<char>::empty();
    assert(shown.drop_last() =~= one);
    assert(one.drop_last() =~= none);
    assert(put_on_record(none, turn.id) == empty);
    assert(shown_as_answer(none, turn.id) == empty);
    assert(spoken_parts(none) == Seq::<Seq<char>>::empty());
    assert(one.last() == first);
    assert(shown.last() == second);
    assert(put_on_record(one, turn.id) =~= delta);
    assert(shown_as_answer(one, turn.id) == empty);
    assert(spoken_parts(one) == Seq::<Seq<char>>::empty());
    assert(put_on_record(shown, turn.id) == delta);
    assert(shown_as_answer(shown, turn.id) =~= delta);
    assert(spoken_parts(shown) == Seq::<Seq<char>>::empty());
    if turn.voice {
        let parts = released(turn.chunker.with(delta));
        let speaking = parts.0.map_values(|c: Seq<char>| Effect::Speak(c));
        spoken_chunks(parts.0, turn.id);
        effects_go_on(shown, speaking, turn.id);
        assert(effects == shown + speaking);
        assert(delta + empty =~= delta);
        assert(spoken_parts(effects) =~= parts.0);
    } else {
        assert(effects == shown);
    }
}

/// An answer is shown and put on record whole, part by part as it comes, and
/// where it is spoken nothing of it is lost: what is spoken of it, with what is
/// still waiting for the end of a sentence, is all that was said.
pub proof fn an_answer_is_shown_and_spoken_whole(
    turn: TurnView,
    assistant: AssistantView,
    deltas: Seq<Seq<char>>,
)
    requires
        turn.stage is Answering,
    ensures
        ({
            let (after, effects) = after_deltas(turn, assistant, deltas);
            &&& after.stage is Answering
            &&& after.id == turn.id && after.voice == turn.voice
            &&& put_on_record(effects, turn.id) == concat(deltas)
            &&& shown_as_answer(effects, turn.id) == concat(deltas)
            &&& turn.voice ==> visible(turn.chunker.buffer + concat(deltas)) == visible(
                concat(spoken_parts(effects)),
            ) + visible(trim(after.chunker.buffer))
            &&& !turn.voice ==> spoken_parts(effects).len() == 0
        }),
{
    deltas_are_shown(turn, assistant, deltas);
    the_whole_answer_is_spoken(turn.chunker, deltas);
}

proof fn deltas_are_shown(turn: TurnView, assistant: AssistantView, deltas: Seq<Seq<char>>)
    requires
        turn.stage is Answering,
    ensures
        ({
            let (after, effects) = after_deltas(turn, assistant, deltas);
            &&& after.stage is Answering
            &&& after.id == turn.id && after.voice == turn.voice
            &&& put_on_record(effects, turn.id) == concat(deltas)
            &&& shown_as_answer(effects, turn.id) == concat(deltas)
            &&& turn.voice ==> spoken_parts(effects) == released_over(turn.chunker, deltas).0
                && after.chunker == released_over(turn.chunker, deltas).1
            &&& !turn.voice ==> spoken_parts(effects).len() == 0
        }),
    decreases deltas.len(),
{
    if deltas.len() > 0 {
        let moved = turn.step(assistant, TurnInputView::Delta(deltas[0]));
        one_delta(turn, assistant, deltas[0]);
        let rest = after_deltas(moved.turn, assistant, deltas.drop_first());
        deltas_are_shown(moved.turn, assistant, deltas.drop_first());
        effects_go_on(moved.step.effects, rest.1, turn.id);
        if !turn.voice {
            assert(spoken_parts(moved.step.effects + rest.1) =~= Seq::<Seq<char>>::empty());
        }
    }
}

/// The answer of the agent is the answer of the turn, and its failure the turn's
/// failure. Where it waits for consent, what it withheld is kept as it is: the
/// action, the risk, the call and the whole conversation, and the user is asked.
pub proof fn the_agents_answer_is_the_turns(
    turn: TurnView,
    assistant: AssistantView,
    outcome: AgentOutcomeView,
    error: Seq<char>,
    call: PendingView,
)
    requires
        turn.stage is Answering,
    ensures
        outcome.pending_confirmation is None ==> turn.step(
            assistant,
            TurnInputView::AgentDone(Ok(outcome)),
        ).step.request == TurnRequestView::Finished(Ok(outcome.final_text)),
        outcome.pending_confirmation is None ==> turn.step(
            assistant,
            TurnInputView::AgentDone(Ok(outcome)),
        ).assistant.pending == assistant.pending,
        outcome.pending_confirmation == Some(call) ==> ({
            let moved = turn.step(assistant, TurnInputView::AgentDone(Ok(outcome)));
            &&& moved.step.request == TurnRequestView::Finished(Ok(call.voice_prompt))
            &&& moved.assistant.pending is Some
            &&& moved.assistant.pending->Some_0.capability == call.capability
            &&& moved.assistant.pending->Some_0.risk == call.risk
            &&& moved.assistant.pending->Some_0.tool_use_id == call.tool_use_id
            &&& moved.assistant.pending->Some_0.tool_name == call.tool_name
            &&& moved.assistant.pending->Some_0.messages == outcome.messages
            &&& moved.assistant.pending->Some_0.turn_id == turn.id
        }),
        turn.step(assistant, TurnInputView::AgentDone(Err(error))).step.request
            == TurnRequestView::Finished(Err(error)),
        turn.step(assistant, TurnInputView::AgentDone(Err(error))).assistant == assistant,
{
}

/// Consent runs what was withheld, and nothing else; refusal runs nothing and
/// says so.
pub proof fn consent_runs_what_was_withheld(
    turn: TurnView,
    assistant: AssistantView,
    withheld: WithheldView,
)
    requires
        turn.stage == StageView::Replying(withheld),
    ensures
        turn.step(assistant, TurnInputView::Reply(Some(true))).step.request
            == (TurnRequestView::Execute { capability: withheld.capability, confirmed: true }),
        turn.step(assistant, TurnInputView::Reply(Some(true))).assistant == assistant,
        ({
            let refused = turn.step(assistant, TurnInputView::Reply(Some(false)));
            &&& refused.step.request == TurnRequestView::Finished(Ok("Okay, I won't do that."@))
            &&& refused.step.effects == said(
                turn.voice,
                withheld.turn_id,
                "Okay, I won't do that."@,
            )
            &&& refused.assistant.pending == assistant.pending
        }),
{
}

/// What an action came to that was consented to is told in the conversation that
/// asked for it, under the identifier of the call, and the agent goes on from
/// there; an action that no conversation asked for ends the turn with what it
/// came to.
pub proof fn a_confirmed_action_is_told(
    turn: TurnView,
    assistant: AssistantView,
    id: Seq<char>,
    messages: Seq<AgentMessageView>,
    tool_use_id: Seq<char>,
    text: Seq<char>,
    is_error: bool,
    described: Seq<char>,
    update: ContextUpdate,
    name: Seq<char>,
)
    requires
        turn.stage == (StageView::Confirmed { turn_id: id, messages, tool_use_id }),
    ensures
        ({
            let done = turn.step(
                assistant,
                TurnInputView::Executed {
                    result: ActionResult::Said { text, is_error },
                    described,
                    update,
                },
            );
            &&& done.assistant.working.last_result == Some(text)
            &&& done.assistant.working.recent_actions.len() > 0
                && done.assistant.working.recent_actions.last() == described
            &&& tool_use_id.len() == 0 ==> done.step.request == TurnRequestView::Finished(Ok(text))
            &&& tool_use_id.len() > 0 ==> {
                let resumed = done.turn.step(
                    done.assistant,
                    TurnInputView::Client(Ok(name)),
                );
                match resumed.step.request {
                    TurnRequestView::RunAgent { messages: told, fresh } => {
                        &&& fresh
                        &&& told.len() == messages.len() + 1
                        &&& told.drop_last() == messages
                        &&& told.last().role == AgentRole::User
                        &&& told.last().content == seq![
                            AgentContentView::ToolResult {
                                tool_use_id,
                                text,
                                image: None,
                                is_error,
                            },
                        ]
                    },
                    _ => false,
                }
            }
        }),
{
    assert(messages.push(
        AgentMessageView {
            role: AgentRole::User,
            content: seq![
                AgentContentView::ToolResult { tool_use_id, text, image: None, is_error },
            ],
        },
    ).drop_last() =~= messages);
}

/// An obvious command is run as it is, and what it came to is the answer, which
/// is remembered; one that needs consent is withheld as it is, and the user is
/// asked.
pub proof fn a_command_is_run_and_told(
    turn: TurnView,
    assistant: AssistantView,
    capability: Capability<Seq<char>>,
    described: Seq<char>,
    text: Seq<char>,
    is_error: bool,
    update: ContextUpdate,
    withheld: Capability<Seq<char>>,
    risk: RiskLevel,
    prompt: Seq<char>,
)
    requires
        turn.stage is Routing,
        !(capability is TaskControl),
    ensures
        ({
            let run = turn.step(
                assistant,
                TurnInputView::Route(Some((capability, described))),
            );
            let done = run.turn.step(
                run.assistant,
                TurnInputView::Executed {
                    result: ActionResult::Said { text, is_error },
                    described,
                    update,
                },
            );
            let kept = run.turn.step(
                run.assistant,
                TurnInputView::Executed {
                    result: ActionResult::Withheld {
                        capability: withheld,
                        risk,
                        voice_prompt: prompt,
                    },
                    described,
                    update,
                },
            );
            &&& run.step.request == (TurnRequestView::Execute { capability, confirmed: false })
            &&& run.assistant == assistant
            &&& done.step.request == TurnRequestView::Finished(Ok(text))
            &&& done.assistant.working.last_result == Some(text)
            &&& done.assistant.working.recent_actions.last() == described
            &&& done.assistant.pending == assistant.pending
            &&& kept.step.request == TurnRequestView::Finished(Ok(prompt))
            &&& kept.assistant.working == assistant.working
            &&& kept.assistant.pending is Some
            &&& kept.assistant.pending->Some_0.capability == withheld
            &&& kept.assistant.pending->Some_0.risk == risk
            &&& kept.assistant.pending->Some_0.turn_id == turn.id
        }),
{
}

/// What is not an obvious command is asked of the model: the conversation so far,
/// in order, and the user's words last.
pub proof fn the_model_is_asked_the_question(
    turn: TurnView,
    assistant: AssistantView,
    name: Seq<char>,
    error: Seq<char>,
)
    requires
        turn.stage is Connecting,
    ensures
        ({
            let asked = turn.step(assistant, TurnInputView::Client(Ok(name)));
            &&& asked.assistant == assistant
            &&& asked.turn.stage is Answering
            &&& match asked.step.request {
                TurnRequestView::RunAgent { messages, fresh } => {
                    &&& !fresh
                    &&& messages.len() == 2 * turn.history.len() + 2
                    &&& messages[0].role == AgentRole::System
                    &&& messages.last().role == AgentRole::User
                    &&& messages.last().content == seq![AgentContentView::Text(turn.text)]
                    &&& forall|i: int|
                        0 <= i < turn.history.len() ==> messages[2 * i + 1].content == seq![
                            AgentContentView::Text((#[trigger] turn.history[i]).0),
                        ] && messages[2 * i + 2].content == seq![
                            AgentContentView::Text(turn.history[i].1),
                        ] && messages[2 * i + 1].role == AgentRole::User && messages[2 * i
                            + 2].role == AgentRole::Assistant
                },
                _ => false,
            }
        }),
        turn.step(assistant, TurnInputView::Client(Err(error))).step.request
            == TurnRequestView::Finished(Err(error)),
{
    the_question_comes_last(turn.text, turn.options, turn.history, assistant.working, name);
}

/// A language that is understood is gone on with; for any other the turn ends
/// with what is to be said of it.
pub proof fn only_what_is_understood_goes_on(
    turn: TurnView,
    assistant: AssistantView,
    code: Seq<char>,
    rejection: Seq<char>,
    clarification: Seq<char>,
)
    requires
        turn.stage is Listening,
    ensures
        turn.step(
            assistant,
            TurnInputView::Language {
                code,
                decision: LanguageDecision::Supported,
                rejection,
                clarification,
            },
        ).step.request is MatchRoute,
        turn.step(
            assistant,
            TurnInputView::Language {
                code,
                decision: LanguageDecision::Unsupported,
                rejection,
                clarification,
            },
        ).step.request == TurnRequestView::Finished(Ok(rejection)),
        turn.step(
            assistant,
            TurnInputView::Language {
                code,
                decision: LanguageDecision::LowConfidence,
                rejection,
                clarification,
            },
        ).step.request == TurnRequestView::Finished(Ok(clarification)),
{
}

/// A command about the task is obeyed at once, and what is said of it is the
/// answer.
pub proof fn the_task_is_controlled(
    turn: TurnView,
    assistant: AssistantView,
    op: TaskControlOp,
    described: Seq<char>,
)
    requires
        turn.stage is Routing,
    ensures
        ({
            let moved = turn.step(
                assistant,
                TurnInputView::Route(Some((Capability::TaskControl(op), described))),
            );
            let controlled = task_controlled(assistant.working, op);
            &&& moved.assistant.working == controlled.0
            &&& moved.step.request == TurnRequestView::Finished(Ok(controlled.1))
            &&& moved.step.effects == said(turn.voice, turn.id, controlled.1)
        }),
{
}

/// What is said as a whole is shown, and spoken where the turn is.
pub proof fn what_is_said_is_shown_and_spoken(voice: bool, turn_id: Seq<char>, text: Seq<char>)
    ensures
        said(voice, turn_id, text).contains(
            Effect::Emit { turn_id, event: TurnEvent::AnswerDelta { delta: text } },
        ),
        voice ==> said(voice, turn_id, text).contains(Effect::SpeakNow(text)),
        said(voice, turn_id, text).len() == (if voice {
            2int
        } else {
            1int
        }),
{
    let effects = said(voice, turn_id, text);
    let shown = Effect::Emit { turn_id, event: TurnEvent::AnswerDelta { delta: text } };
    assert(effects[effects.len() - 1] == shown);
    if voice {
        assert(effects[0] == Effect::SpeakNow(text));
    }
}

/// A turn is put on record first, with the user's words, and closed at its end,
/// with its answer: that of a cancelled or failed turn is empty, and only a
/// cancelled one is closed as cancelled. A failure is shown in its own words.
pub proof fn a_turn_is_put_on_record_and_closed(
    turn_id: Seq<char>,
    text: Seq<char>,
    speaking: bool,
    answer: Seq<char>,
    error: Seq<char>,
    voice: bool,
)
    requires
        error != "cancelled"@,
    ensures
        opening_effects(turn_id, text, speaking)[0] == (Effect::CreateTurn { turn_id, text }),
        speaking <==> opening_effects(turn_id, text, speaking).contains(Effect::StopSpeech),
        final_result(Ok(answer), false) == Ok::<Seq<char>, Seq<char>>(answer),
        final_result(Ok(answer), true) == Err::<Seq<char>, Seq<char>>("cancelled"@),
        final_result(Err(error), false) == Err::<Seq<char>, Seq<char>>(error),
        closing_effects(turn_id, Ok(answer), voice).contains(
            Effect::CompleteTurn { turn_id, answer, cancelled: false },
        ),
        closing_effects(turn_id, Err("cancelled"@), voice).contains(
            Effect::CompleteTurn { turn_id, answer: Seq::empty(), cancelled: true },
        ),
        closing_effects(turn_id, Err(error), voice).contains(
            Effect::CompleteTurn { turn_id, answer: Seq::empty(), cancelled: false },
        ),
        closing_effects(turn_id, Err(error), voice).contains(
            Effect::Emit {
                turn_id,
                event: TurnEvent::Error { message: "Sorry, I ran into a problem: "@ + error },
            },
        ),
{
    let opened = opening_effects(turn_id, text, speaking);
    if speaking {
        assert(opened[1] == Effect::<Seq<char>>::StopSpeech);
    } else {
        assert(opened.len() == 2);
    }
    assert(closing_effects(turn_id, Ok(answer), voice)[0] == (Effect::CompleteTurn {
        turn_id,
        answer,
        cancelled: false,
    }));
    assert(closing_effects(turn_id, Err("cancelled"@), voice)[0] == (Effect::CompleteTurn {
        turn_id,
        answer: Seq::empty(),
        cancelled: true,
    }));
    let failed = closing_effects(turn_id, Err(error), voice);
    assert(failed[failed.len() - 2] == (Effect::CompleteTurn {
        turn_id,
        answer: Seq::empty(),
        cancelled: false,
    }));
    assert(failed[0] == (Effect::Emit {
        turn_id,
        event: TurnEvent::Error { message: "Sorry, I ran into a problem: "@ + error },
    }));
}

} // verus!
