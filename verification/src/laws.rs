//! What holds of a prompt session and of its opening, whatever the service
//! and the transport do.

use crate::callback::{callback_address, refusal, EffectView, PromptSession, Stage};
use crate::initiator::{Phase, Startup, StartupEffectView};
use crate::prompter::{confirm_prompt, PrompterCallView};
use crate::properties::{target_keyring, PropertiesView};
use vstd::prelude::*;

verus! {

/// An inbound call of the prompting service on the callback endpoint.
pub enum Inbound {
    /// The user's reply, with the token of the exchange.
    Reply { reply: Seq<char>, exchange: Seq<char> },
    /// The end of the session.
    Completion,
}

/// The session after one inbound call, and what the call asks of the driver.
pub open spec fn step(session: PromptSession, event: Inbound) -> (PromptSession, EffectView) {
    match event {
        Inbound::Reply { reply, exchange } => session.reply_received(reply, exchange),
        Inbound::Completion => session.completion_signaled(),
    }
}

/// The session after the inbound calls `events`, in their order.
pub open spec fn run(session: PromptSession, events: Seq<Inbound>) -> PromptSession
    decreases events.len(),
{
    if events.len() == 0 {
        session
    } else {
        run(step(session, events.first()).0, events.drop_first())
    }
}

/// The number of calls to the prompting service that the inbound calls
/// `events` ask for, taken together.
pub open spec fn requests(session: PromptSession, events: Seq<Inbound>) -> nat
    decreases events.len(),
{
    if events.len() == 0 {
        0
    } else {
        let (next, effect) = step(session, events.first());
        let sent: nat = if effect is Send {
            1
        } else {
            0
        };
        sent + requests(next, events.drop_first())
    }
}

/// The place of a stage in the life of a session.
pub open spec fn rank(stage: Stage) -> nat {
    match stage {
        Stage::Initial => 0,
        Stage::AwaitingConfirm => 1,
        Stage::Done => 2,
    }
}

/// A refusal of the first prompt ends the process with a success status, and
/// asks for no call to the service.
pub proof fn law_refusal_terminates(session: PromptSession, exchange: Seq<char>)
    requires
        session.stage == Stage::Initial,
    ensures
        session.reply_received(refusal(), exchange).1 == EffectView::Terminate,
        !(session.reply_received(refusal(), exchange).1 is Send),
{
}

/// Any first reply but the refusal asks for one call to the service: a
/// prompt of the confirm kind, reported to the session's own endpoint, with
/// the token of the exchange that the reply came with.
pub proof fn law_acceptance_asks_for_confirmation(
    session: PromptSession,
    reply: Seq<char>,
    exchange: Seq<char>,
)
    requires
        session.stage == Stage::Initial,
        reply != refusal(),
    ensures
        session.reply_received(reply, exchange).1 == EffectView::Send(
            (PrompterCallView::PerformPrompt {
                callback: session.callback_address,
                prompt_type: confirm_prompt(),
                properties: PropertiesView::lock_confirmation(),
                exchange,
            }),
        ),
        session.reply_received(reply, exchange).0.stage == Stage::AwaitingConfirm,
{
}

/// Whatever the stage and the reply, a prompt that a reply asks for has all
/// five texts present, with these values.
pub proof fn law_follow_up_properties_are_fixed(
    session: PromptSession,
    reply: Seq<char>,
    exchange: Seq<char>,
)
    ensures
        session.reply_received(reply, exchange).1 matches EffectView::Send(
            PrompterCallView::PerformPrompt { properties, .. },
        ) ==> {
            &&& properties.all_present()
            &&& properties.continue_label == Some("Lock"@)
            &&& properties.description == Some(
                "Confirm locking '"@ + target_keyring() + "' Keyring"@,
            )
            &&& properties.message == Some("Lock Keyring"@)
            &&& properties.caller_window == Some(Seq::<char>::empty())
            &&& properties.cancel_label == Some("Cancel"@)
        },
{
}

/// The description of the confirm prompt is this text. It names the keyring.
pub proof fn law_description_names_the_keyring()
    ensures
        PropertiesView::lock_confirmation().description == Some(
            "Confirm locking 'login' Keyring"@,
        ),
        "Confirm locking 'login' Keyring"@.subrange(17, 22) == target_keyring(),
{
    reveal_strlit("Confirm locking '");
    reveal_strlit("login");
    reveal_strlit("' Keyring");
    reveal_strlit("Confirm locking 'login' Keyring");
    assert("Confirm locking '"@ + "login"@ + "' Keyring"@ =~= "Confirm locking 'login' Keyring"@);
    assert("Confirm locking 'login' Keyring"@.subrange(17, 22) =~= "login"@);
}

/// The signal that the session is over asks for nothing and leaves the
/// address alone, at every stage. A second signal changes nothing that the
/// first has left.
pub proof fn law_completion_is_idempotent(session: PromptSession)
    ensures
        session.completion_signaled().1 == EffectView::Idle,
        session.completion_signaled().0.callback_address == session.callback_address,
        session.completion_signaled().0.completion_signaled() == session.completion_signaled(),
{
}

/// However often the end of the session is signalled, at least once, the
/// session is as one signal leaves it, and no call to the service is asked
/// for.
pub proof fn law_completion_repeated(session: PromptSession, events: Seq<Inbound>)
    requires
        events.len() >= 1,
        forall|i: int| 0 <= i < events.len() ==> events[i] is Completion,
    ensures
        run(session, events) == session.completion_signaled().0,
        requests(session, events) == 0,
    decreases events.len(),
{
    let rest = events.drop_first();
    let next = step(session, events.first()).0;
    assert(events[0] is Completion);
    if rest.len() == 0 {
        assert(run(next, rest) == next);
        assert(requests(next, rest) == 0);
    } else {
        assert forall|i: int| 0 <= i < rest.len() implies rest[i] is Completion by {
            assert(rest[i] == events[i + 1]);
        }
        law_completion_repeated(next, rest);
    }
}

/// No inbound call takes a session back to an earlier stage, and none
/// changes its address.
pub proof fn law_stage_never_regresses(session: PromptSession, event: Inbound)
    ensures
        rank(step(session, event).0.stage) >= rank(session.stage),
        step(session, event).0.callback_address == session.callback_address,
{
}

/// A session that is over stays over and asks for nothing more.
pub proof fn law_done_is_final(session: PromptSession, event: Inbound)
    requires
        session.stage == Stage::Done,
    ensures
        step(session, event) == (session, EffectView::Idle),
{
}

/// Over a whole session, whatever the service calls and in whatever order, at
/// most one call to the service is asked for, and none once the first reply
/// has been handled. The address stays what it was.
pub proof fn law_at_most_one_request(session: PromptSession, events: Seq<Inbound>)
    ensures
        requests(session, events) <= 1,
        session.stage != Stage::Initial ==> requests(session, events) == 0,
        rank(run(session, events).stage) >= rank(session.stage),
        run(session, events).callback_address == session.callback_address,
    decreases events.len(),
{
    if events.len() > 0 {
        law_at_most_one_request(step(session, events.first()).0, events.drop_first());
    }
}

/// A session asks for its one call exactly when the first inbound call is a
/// reply other than the refusal, and that reply comes before any signal of
/// the session's end.
pub proof fn law_first_event_decides(session: PromptSession, events: Seq<Inbound>)
    requires
        session.stage == Stage::Initial,
        events.len() >= 1,
    ensures
        requests(session, events) == 1 <==> (events.first() matches Inbound::Reply { reply, .. }
            && reply != refusal()),
{
    law_at_most_one_request(step(session, events.first()).0, events.drop_first());
}

/// The opening of a session asks for the request to begin prompting only
/// once the endpoint's registration has gone through, and lets the process
/// listen only once that request has been delivered.
pub proof fn law_steps_in_order(startup: Startup, delivered: bool)
    ensures
        startup.reported(delivered).phase == Phase::Beginning ==> startup.phase
            == Phase::Registering && delivered,
        startup.reported(delivered).phase == Phase::Listening ==> startup.phase
            == Phase::Listening || (startup.phase == Phase::Beginning && delivered),
        startup.reported(delivered).callback_address == startup.callback_address,
{
}

/// A step that the transport fails ends the opening: the process is to be
/// left with a failure status.
pub proof fn law_failed_step_aborts(startup: Startup)
    requires
        startup.phase == Phase::Registering || startup.phase == Phase::Beginning,
    ensures
        startup.reported(false).phase is Aborted,
        startup.reported(false).pending() is Abort,
{
}

/// No step is tried again: an opening that was given up stays so, whatever
/// the transport reports afterwards.
pub proof fn law_aborted_is_final(startup: Startup, delivered: bool)
    requires
        startup.phase is Aborted,
    ensures
        startup.reported(delivered) == startup,
        startup.pending() is Abort,
{
}

/// Every call that the opening of a session at the process's own address
/// asks for names that address, and so does the registration.
pub proof fn law_opening_names_the_address(startup: Startup)
    requires
        startup.callback_address == callback_address(),
    ensures
        startup.pending() matches StartupEffectView::Register { address } ==> address
            == callback_address(),
        startup.pending() matches StartupEffectView::Send(call) ==> call
            == (PrompterCallView::BeginPrompting { callback: callback_address() }),
{
}

} // verus!
