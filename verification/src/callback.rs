//! The callback endpoint: the object that the prompting service invokes with
//! the user's reply and with the end of the session.

use crate::address::{is_object_path, CallbackAddress};
use crate::prompter::{confirm_prompt, PrompterCall, PrompterCallView};
use crate::properties::{Properties, PropertiesView};
use vstd::prelude::*;
use vstd::string::StrSliceExecFns;

verus! {

/// How far a prompt session has come.
#[derive(Clone, Copy, Debug, PartialEq, Eq, Structural)]
pub enum Stage {
    /// No reply has arrived yet.
    Initial,
    /// The first reply was an acceptance, and the confirm prompt was asked for.
    AwaitingConfirm,
    /// The session is over.
    Done,
}

/// What a driver has to do after a handler has run.
#[derive(Debug)]
pub enum Effect {
    /// Leave the process with a success status.
    Terminate,
    /// Send the call to the prompting service as a task of its own, without
    /// waiting for its delivery. A call that fails is not sent again.
    Send(PrompterCall),
    /// Nothing.
    Idle,
}

/// What an `Effect` says, over sequences of characters.
pub enum EffectView {
    Terminate,
    Send(PrompterCallView),
    Idle,
}

impl View for Effect {
    type V = EffectView;

    open spec fn view(&self) -> EffectView {
        match self {
            Effect::Terminate => EffectView::Terminate,
            Effect::Send(call) => EffectView::Send(call@),
            Effect::Idle => EffectView::Idle,
        }
    }
}

/// The reply by which the user refuses.
pub open spec fn refusal() -> Seq<char> {
    "no"@
}

/// The address at which the callback endpoint of this process is reachable.
pub open spec fn callback_address() -> Seq<char> {
    "/org/gnome/keyring/Prompt/p6"@
}

/// A prompt session as the protocol sees it: the address of its callback
/// endpoint, and its stage.
pub struct PromptSession {
    pub callback_address: Seq<char>,
    pub stage: Stage,
}

impl PromptSession {
    /// The session of a callback endpoint that no reply has reached.
    pub open spec fn initial(callback_address: Seq<char>) -> PromptSession {
        PromptSession { callback_address, stage: Stage::Initial }
    }

    /// The session at another stage.
    pub open spec fn at(self, stage: Stage) -> PromptSession {
        PromptSession { callback_address: self.callback_address, stage }
    }

    /// The request for the confirm prompt that follows an acceptance. It is
    /// reported to this session's endpoint and carries `exchange` on.
    pub open spec fn confirm_request(self, exchange: Seq<char>) -> PrompterCallView {
        PrompterCallView::PerformPrompt {
            callback: self.callback_address,
            prompt_type: confirm_prompt(),
            properties: PropertiesView::lock_confirmation(),
            exchange,
        }
    }

    /// The session after a reply of the user has arrived, and what the reply
    /// asks of the driver.
    ///
    /// The first reply decides: a refusal ends the session and the process;
    /// any other reply is an acceptance, which asks for the confirm prompt. A
    /// reply to the confirm prompt ends the session and asks for nothing. A
    /// session that is over stays so.
    pub open spec fn reply_received(self, reply: Seq<char>, exchange: Seq<char>) -> (
        PromptSession,
        EffectView,
    ) {
        match self.stage {
            Stage::Initial => if reply == refusal() {
                (self.at(Stage::Done), EffectView::Terminate)
            } else {
                (
                    self.at(Stage::AwaitingConfirm),
                    EffectView::Send(self.confirm_request(exchange)),
                )
            },
            Stage::AwaitingConfirm => (self.at(Stage::Done), EffectView::Idle),
            Stage::Done => (self, EffectView::Idle),
        }
    }

    /// The session after the service has signalled its end, and what the
    /// signal asks of the driver: nothing.
    pub open spec fn completion_signaled(self) -> (PromptSession, EffectView) {
        (self.at(Stage::Done), EffectView::Idle)
    }
}

/// The callback endpoint of a prompt session.
#[derive(Debug)]
pub struct PrompterCallback {
    path: CallbackAddress,
    stage: Stage,
}

impl View for PrompterCallback {
    type V = PromptSession;

    closed spec fn view(&self) -> PromptSession {
        PromptSession { callback_address: self.path@, stage: self.stage }
    }
}

/// The address of the callback endpoint is an object path.
pub proof fn lemma_callback_address_is_object_path()
    ensures
        is_object_path(callback_address()),
{
    reveal_strlit("/org/gnome/keyring/Prompt/p6");
}

/// Whether `reply` is the refusal.
fn is_refusal(reply: &str) -> (refused: bool)
    ensures
        refused == (reply@ == refusal()),
{
    proof {
        reveal_strlit("no");
    }
    let refused = reply.unicode_len() == 2 && reply.get_char(0) == 'n' && reply.get_char(1) == 'o';
    assert(refused ==> reply@ =~= refusal());
    refused
}

impl PrompterCallback {
    /// The endpoint of a session that no reply has reached, at the address
    /// that this process registers.
    pub fn new() -> (callback: Self)
        ensures
            callback@ == PromptSession::initial(callback_address()),
    {
        proof {
            lemma_callback_address_is_object_path();
        }
        match CallbackAddress::parse("/org/gnome/keyring/Prompt/p6".to_owned()) {
            Ok(path) => PrompterCallback { path, stage: Stage::Initial },
            Err(_) => vstd::pervasive::unreached(),
        }
    }

    /// The address at which the endpoint is reachable.
    pub fn path(&self) -> (path: &CallbackAddress)
        ensures
            path@ == self@.callback_address,
    {
        &self.path
    }

    /// The stage that the session has reached.
    pub fn stage(&self) -> (stage: Stage)
        ensures
            stage == self@.stage,
    {
        self.stage
    }

    /// Handles a reply of the user. `_properties` is what the service sent
    /// along; nothing is read of it. `exchange` is the service's token for
    /// this exchange: it is handed on as it came.
    pub fn prompt_ready(&mut self, reply: &str, _properties: Properties, exchange: &str) -> (effect:
        Effect)
        ensures
            (final(self)@, effect@) == old(self)@.reply_received(reply@, exchange@),
            old(self)@.stage == Stage::Initial && reply@ == refusal() ==> effect@
                == EffectView::Terminate,
            old(self)@.stage == Stage::Initial && reply@ != refusal() ==> effect@
                == EffectView::Send(
                (PrompterCallView::PerformPrompt {
                    callback: old(self)@.callback_address,
                    prompt_type: confirm_prompt(),
                    properties: PropertiesView::lock_confirmation(),
                    exchange: exchange@,
                }),
            ),
            old(self)@.stage != Stage::Initial ==> effect@ == EffectView::Idle,
            effect@ matches EffectView::Send(call) ==> call is PerformPrompt,
            effect@ matches EffectView::Send(PrompterCallView::PerformPrompt { properties, .. })
                ==> properties.all_present() && properties == PropertiesView::lock_confirmation(),
            final(self)@.callback_address == old(self)@.callback_address,
    {
        match self.stage {
            Stage::Initial => {
                if is_refusal(reply) {
                    self.stage = Stage::Done;
                    Effect::Terminate
                } else {
                    self.stage = Stage::AwaitingConfirm;
                    Effect::Send(
                        PrompterCall::PerformPrompt {
                            callback: self.path.clone(),
                            prompt_type: "confirm".to_owned(),
                            properties: Properties::lock_confirmation(),
                            exchange: exchange.to_owned(),
                        },
                    )
                }
            },
            Stage::AwaitingConfirm => {
                self.stage = Stage::Done;
                Effect::Idle
            },
            Stage::Done => Effect::Idle,
        }
    }

    /// Handles the service's signal that the session is over.
    pub fn prompt_done(&mut self) -> (effect: Effect)
        ensures
            (final(self)@, effect@) == old(self)@.completion_signaled(),
            effect@ == EffectView::Idle,
            final(self)@.stage == Stage::Done,
            final(self)@.callback_address == old(self)@.callback_address,
    {
        self.stage = Stage::Done;
        Effect::Idle
    }
}

} // verus!
