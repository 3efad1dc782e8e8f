//! The calls that the prompting service takes.

use crate::address::CallbackAddress;
use crate::properties::{Properties, PropertiesView};
use vstd::prelude::*;

verus! {

/// A call to the prompting service, as a value: the library builds it, and a
/// driver sends it over the bus.
#[derive(Debug)]
pub enum PrompterCall {
    /// Opens a prompt session for the callback endpoint at `callback`.
    BeginPrompting { callback: CallbackAddress },
    /// Asks the service to show a prompt of kind `prompt_type` and to report
    /// the answer to the endpoint at `callback`. `exchange` continues the
    /// exchange that an earlier reply belonged to.
    PerformPrompt {
        callback: CallbackAddress,
        prompt_type: String,
        properties: Properties,
        exchange: String,
    },
    /// Closes the prompt session of the endpoint at `callback`.
    StopPrompting { callback: CallbackAddress },
}

/// What a `PrompterCall` says, over sequences of characters.
pub enum PrompterCallView {
    BeginPrompting { callback: Seq<char> },
    PerformPrompt {
        callback: Seq<char>,
        prompt_type: Seq<char>,
        properties: PropertiesView,
        exchange: Seq<char>,
    },
    StopPrompting { callback: Seq<char> },
}

impl View for PrompterCall {
    type V = PrompterCallView;

    open spec fn view(&self) -> PrompterCallView {
        match self {
            PrompterCall::BeginPrompting { callback } => PrompterCallView::BeginPrompting {
                callback: callback@,
            },
            PrompterCall::PerformPrompt {
                callback,
                prompt_type,
                properties,
                exchange,
            } => PrompterCallView::PerformPrompt {
                callback: callback@,
                prompt_type: prompt_type@,
                properties: properties@,
                exchange: exchange@,
            },
            PrompterCall::StopPrompting { callback } => PrompterCallView::StopPrompting {
                callback: callback@,
            },
        }
    }
}

/// The kind of prompt that asks for a confirmation.
pub open spec fn confirm_prompt() -> Seq<char> {
    "confirm"@
}

} // verus!
