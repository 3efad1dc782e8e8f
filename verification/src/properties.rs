//! The display properties that accompany a prompt request.

use vstd::prelude::*;
use vstd::string::StringExecFns;

verus! {

/// The display texts of a prompt. A text that is absent leaves the choice to
/// the prompting service; one that is present is shown as it is.
#[derive(Debug)]
pub struct Properties {
    pub continue_label: Option<String>,
    pub description: Option<String>,
    pub message: Option<String>,
    pub caller_window: Option<String>,
    pub cancel_label: Option<String>,
}

/// What a `Properties` value says: each text as a sequence of characters.
pub struct PropertiesView {
    pub continue_label: Option<Seq<char>>,
    pub description: Option<Seq<char>>,
    pub message: Option<Seq<char>>,
    pub caller_window: Option<Seq<char>>,
    pub cancel_label: Option<Seq<char>>,
}

/// The characters of an optional text.
pub open spec fn text_of(text: Option<String>) -> Option<Seq<char>> {
    match text {
        Some(s) => Some(s@),
        None => None,
    }
}

impl View for Properties {
    type V = PropertiesView;

    open spec fn view(&self) -> PropertiesView {
        PropertiesView {
            continue_label: text_of(self.continue_label),
            description: text_of(self.description),
            message: text_of(self.message),
            caller_window: text_of(self.caller_window),
            cancel_label: text_of(self.cancel_label),
        }
    }
}

/// The keyring that the confirmation prompt asks to lock.
pub open spec fn target_keyring() -> Seq<char> {
    "login"@
}

impl PropertiesView {
    /// No text is left to the service's default.
    pub open spec fn all_present(self) -> bool {
        &&& self.continue_label is Some
        &&& self.description is Some
        &&& self.message is Some
        &&& self.caller_window is Some
        &&& self.cancel_label is Some
    }

    /// The texts of the prompt that asks to confirm locking the keyring. The
    /// description names the keyring; the caller window is the empty text.
    pub open spec fn lock_confirmation() -> PropertiesView {
        PropertiesView {
            continue_label: Some("Lock"@),
            description: Some("Confirm locking '"@ + target_keyring() + "' Keyring"@),
            message: Some("Lock Keyring"@),
            caller_window: Some(Seq::empty()),
            cancel_label: Some("Cancel"@),
        }
    }
}

impl Properties {
    /// Builds the properties of the prompt that asks to confirm locking the
    /// keyring.
    pub fn lock_confirmation() -> (properties: Properties)
        ensures
            properties@ == PropertiesView::lock_confirmation(),
            properties@.all_present(),
    {
        let description = "Confirm locking '".to_owned().concat("login").concat("' Keyring");
        Properties {
            continue_label: Some("Lock".to_owned()),
            description: Some(description),
            message: Some("Lock Keyring".to_owned()),
            caller_window: Some(String::new()),
            cancel_label: Some("Cancel".to_owned()),
        }
    }
}

} // verus!
