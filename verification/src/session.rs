//! Session state: the system-prompt catalog, user-facing settings, the
//! application state read by the poll loop, and the current prompt and
//! response snapshots.

use vstd::prelude::*;
use crate::chat::CurrentChat;
use crate::log::History;
use crate::status::ServiceStatus;

verus! {

/// Which screen the interface shows.
#[derive(PartialEq, Eq, Structural, Clone, Copy)]
pub enum GUIState {
    InfoPopup,
    Main,
    Settings,
    AdvancedSettings,
}

/// Where the upstream service listens, as the user typed it.
#[derive(Clone)]
pub struct HostLocation {
    pub ip: String,
    pub port: String,
}

/// The render-ready document published by the incremental renderer. It is
/// re-derived from the entire accumulated buffer on every token; `source`
/// is that exact buffer. Turning the source into display nodes is the
/// presentation layer's business.
#[derive(Clone)]
pub struct Document {
    pub source: String,
}

/// The system-prompt catalog (names unique, each mapping to a body) and
/// the currently selected name.
#[derive(Clone)]
pub struct SystemPrompt {
    pub system_prompts: Vec<(String, String)>,
    pub system_prompt: Option<String>,
}

/// The body the catalog maps `key` to: the first entry with that name.
pub open spec fn spec_lookup(entries: Seq<(String, String)>, key: Seq<char>) -> Option<Seq<char>>
    decreases entries.len(),
{
    if entries.len() == 0 {
        None
    } else if entries[0].0@ == key {
        Some(entries[0].1@)
    } else {
        spec_lookup(entries.drop_first(), key)
    }
}

/// The body of the currently selected system prompt: nothing when no name
/// is selected or the selected name does not resolve in the catalog.
pub open spec fn spec_resolve(sp: SystemPrompt) -> Option<Seq<char>> {
    match sp.system_prompt {
        Option::None => Option::None,
        Option::Some(key) => spec_lookup(sp.system_prompts@, key@),
    }
}

/// The catalog's names, in catalog order.
pub open spec fn spec_catalog_keys(entries: Seq<(String, String)>) -> Seq<Seq<char>> {
    Seq::new(entries.len(), |i: int| entries[i].0@)
}

impl SystemPrompt {
    /// The catalog's names, in catalog order.
    pub open spec fn keys(&self) -> Seq<Seq<char>> {
        spec_catalog_keys(self.system_prompts@)
    }

    /// The catalog's invariant: names are unique.
    pub open spec fn wf(&self) -> bool {
        self.keys().no_duplicates()
    }

    /// Resolves the currently selected system prompt in the catalog.
    pub fn get_current(&self) -> (r: Option<String>)
        ensures
            r.deep_view() == spec_resolve(*self),
    {
        let key = match &self.system_prompt {
            Option::None => {
                return Option::None;
            },
            Option::Some(key) => key,
        };
        let ghost entries = self.system_prompts@;
        proof {
            assert(entries.skip(0) =~= entries);
        }
        let mut i: usize = 0;
        while i < self.system_prompts.len()
            invariant
                i <= entries.len(),
                entries == self.system_prompts@,
                self.system_prompt == Option::Some(*key),
                spec_lookup(entries.skip(i as int), key@) == spec_lookup(entries, key@),
            decreases entries.len() - i,
        {
            proof {
                assert(entries.skip(i as int)[0] == entries[i as int]);
                assert(entries.skip(i as int).drop_first() =~= entries.skip(i as int + 1));
            }
            if self.system_prompts[i].0.eq(key) {
                return Option::Some(self.system_prompts[i].1.clone());
            }
            i += 1;
        }
        proof {
            assert(entries.skip(entries.len() as int).len() == 0);
        }
        Option::None
    }

    /// The catalog's names as a list, for display.
    pub fn names(&self) -> (r: Vec<String>)
        ensures
            r.deep_view() == self.keys(),
    {
        let mut r: Vec<String> = Vec::new();
        let mut i: usize = 0;
        while i < self.system_prompts.len()
            invariant
                i <= self.system_prompts@.len(),
                r@.len() == i,
                forall|j: int| 0 <= j < i ==> #[trigger] r@[j]@ == self.system_prompts@[j].0@,
            decreases self.system_prompts@.len() - i,
        {
            r.push(self.system_prompts[i].0.clone());
            i += 1;
        }
        proof {
            assert(r.deep_view() =~= self.keys());
        }
        r
    }
}

/// Settings specific to the current user: the selected model, generation
/// parameters, the conversation, and the service address.
#[derive(Clone)]
pub struct UserInformation {
    pub model: Option<String>,
    pub think: bool,
    /// Sampling temperature in hundredths: `70` stands for `0.70`.
    pub temperature: u8,
    pub chat_history: CurrentChat,
    pub current_chat_history_enabled: bool,
    pub ip_address: HostLocation,
}

/// Application-wide state read by the poll loop and the interface.
pub struct AppState {
    pub filtering: bool,
    pub logs: History,
    pub logging: bool,
    pub ollama_state: ServiceStatus,
    pub bots_list: Vec<String>,
    pub gui_state: GUIState,
    pub dark_mode: bool,
}

/// The in-flight response: the accumulation buffer and the latest
/// rendered document drained from the renderer.
pub struct Response {
    pub response_as_string: String,
    pub parsed_markdown: Document,
}

/// The prompt being edited, and when the last one was dispatched
/// (milliseconds on the caller's clock).
pub struct Prompt {
    pub prompt_time_sent: u64,
    pub prompt: String,
}

} // verus!
