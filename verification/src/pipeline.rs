//! The pipeline: the single-threaded program state driven by the poll
//! loop, and the generation orchestrator's transitions. Long-running work
//! (opening the stream, probing the service) happens outside; each outside
//! step hands its outcome back through exactly one transition here.

use vstd::prelude::*;
use vstd::string::StringExecFns;
use crate::chat::{join_lines, spec_exchange, Correspondence, CurrentChat};
use crate::filter::{apply_filter, filtered_text};
use crate::generation::{
    concat_texts, join_all, lemma_feed_snoc, spec_feed, token_texts, Generation, OutboundRequest,
    Token,
};
use crate::log::{spec_push_log, Log};
use crate::notify::{Channels, DebugMessage};
use crate::session::{
    spec_catalog_keys, spec_resolve, AppState, Document, GUIState, HostLocation, Prompt, Response,
    SystemPrompt, UserInformation,
};
use crate::status::{spec_classify, spec_merge, ServiceStatus, VersionProbeOutcome};

verus! {

/// The tick on which the service version is probed.
pub const VERSION_TICK: i32 = 5000;

/// The tick ceiling: past it the counter wraps back to zero.
pub const MAX_TICK: i32 = 20000;

/// The tick on which the model inventory is refreshed.
pub const BOT_LIST_TICK: i32 = 1000;

/// The poll period in milliseconds.
pub const TICK_MS: u64 = 200;

/// The probe a tick asks the background executor to launch: at most one,
/// so the two probes never overlap on one tick.
#[derive(PartialEq, Eq, Structural, Clone, Copy, Debug)]
pub enum TickProbe {
    NoProbe,
    VersionProbe,
    InventoryProbe,
}

/// What one tick decided: which probe to launch, and whether a completed
/// interaction was appended to the log (so the log file must be rewritten).
#[derive(PartialEq, Eq, Structural, Clone, Copy)]
pub struct TickOutcome {
    pub probe: TickProbe,
    pub wrote_log: bool,
}

/// The whole program state: session fields, channels, and the in-flight
/// generation, mutated only by the poll loop and the orchestrator.
pub struct Program {
    pub is_processing: bool,
    pub current_tick: i32,
    pub installing_model: String,
    pub debug_message: DebugMessage,
    pub system_prompt: SystemPrompt,
    pub app_state: AppState,
    pub channels: Channels,
    pub user_information: UserInformation,
    pub response: Response,
    pub prompt: Prompt,
    pub generation: Option<Generation>,
}

impl Program {
    /// The state invariant: unique catalog names, a duplicate-free
    /// inventory, a bounded tick counter, and an accumulation buffer that
    /// is exactly the concatenation of the in-flight filtered tokens.
    pub open spec fn wf(self) -> bool {
        &&& self.system_prompt.wf()
        &&& self.app_state.bots_list.deep_view().no_duplicates()
        &&& 0 <= self.current_tick <= MAX_TICK + 1
        &&& (self.generation matches Option::Some(g) ==> self.response.response_as_string@
            == concat_texts(g.final_response.deep_view()))
    }
}

/// One message was enqueued on a debug queue: the queue grew by exactly
/// that message, at the back.
pub open spec fn spec_debug_pushed(
    pre: Seq<DebugMessage>,
    post: Seq<DebugMessage>,
    text: Seq<char>,
    is_error: bool,
) -> bool {
    &&& post.len() == pre.len() + 1
    &&& post.take(pre.len() as int) == pre
    &&& post.last().message@ == text
    &&& post.last().is_error == is_error
}

/// A refused submission: one error-flagged debug message and one idle
/// notification are enqueued, and nothing else changes — in particular the
/// transcript and the busy flag stay as they were.
pub open spec fn spec_submit_refused(pre: Program, post: Program, text: Seq<char>) -> bool {
    &&& post == Program { channels: post.channels, ..pre }
    &&& spec_debug_pushed(pre.channels.debug_channel@, post.channels.debug_channel@, text, true)
    &&& post.channels.debounce_channel@ == pre.channels.debounce_channel@.push(false)
    &&& post.channels.logging_channel@ == pre.channels.logging_channel@
    &&& post.channels.markdown_channel@ == pre.channels.markdown_channel@
}

/// The text sent upstream: the prompt alone, or, when conversation-context
/// mode is enabled, the serialized context between fixed framing lines.
pub open spec fn spec_outbound_prompt(
    history_enabled: bool,
    context: Seq<char>,
    prompt: Seq<char>,
) -> Seq<char> {
    if history_enabled {
        "The following is a conversation between an AI language model and a User. You are the AI language model:\n                    "@
            + context
            + "\n                    [END CONVERSATION CONTEXT]\n                    Now, the user is sending another message: "@
            + prompt + "\n                    Respond: \n                    "@
    } else {
        prompt
    }
}

/// An accepted submission: the dispatch time is recorded, the prompt joins
/// the transcript as a user entry, the response buffer restarts empty, the
/// in-flight record is created under the current settings, no notification
/// is enqueued, and the returned request carries the resolved system
/// prompt, the selected model, and the (optionally context-prefixed)
/// prompt.
pub open spec fn spec_submit_accepted(
    pre: Program,
    post: Program,
    prompt: String,
    now_ms: u64,
    r: Option<OutboundRequest>,
) -> bool {
    &&& pre.user_information.model matches Option::Some(model) ==> {
        &&& r matches Option::Some(req) ==> {
            &&& req.model == model
            &&& req.prompt@ == spec_outbound_prompt(
                pre.user_information.current_chat_history_enabled,
                join_lines(pre.user_information.chat_history.chats.deep_view()),
                prompt@,
            )
            &&& Option::Some(req.system@) == spec_resolve(pre.system_prompt)
            &&& req.temperature == pre.user_information.temperature
            &&& req.think == pre.user_information.think
            &&& post.generation matches Option::Some(g) ==> {
                &&& g.prompt == prompt
                &&& g.system_prompt == req.system
                &&& g.model == model
                &&& g.filtering == pre.app_state.filtering
                &&& g.logging == pre.app_state.logging
                &&& g.history_enabled == pre.user_information.current_chat_history_enabled
                &&& g.final_response@ == Seq::<String>::empty()
            }
        }
        &&& r is Some
        &&& post.generation is Some
    }
    &&& post.is_processing
    &&& post.current_tick == pre.current_tick
    &&& post.installing_model == pre.installing_model
    &&& post.debug_message == pre.debug_message
    &&& post.system_prompt == pre.system_prompt
    &&& post.app_state == pre.app_state
    &&& post.channels.debug_channel@ == pre.channels.debug_channel@
    &&& post.channels.debounce_channel@ == pre.channels.debounce_channel@
    &&& post.channels.logging_channel@ == pre.channels.logging_channel@
    &&& post.channels.markdown_channel@ == pre.channels.markdown_channel@
    &&& post.user_information == UserInformation {
        chat_history: post.user_information.chat_history,
        ..pre.user_information
    }
    &&& post.user_information.chat_history.messages@
        == pre.user_information.chat_history.messages@.push(Correspondence::User(prompt))
    &&& post.user_information.chat_history.chats == pre.user_information.chat_history.chats
    &&& post.user_information.chat_history.bot_responding
    &&& post.response.response_as_string@ == Seq::<char>::empty()
    &&& post.response.parsed_markdown.source@ == "Waiting for bot..."@
    &&& post.prompt.prompt_time_sent == now_ms
    &&& post.prompt.prompt@ == Seq::<char>::empty()
}

/// Everything `submit` may do, by case: a no-op while busy; a refusal when
/// no model is selected or the selected system prompt does not resolve; an
/// acceptance otherwise — and nothing else.
pub open spec fn spec_submit_post(
    pre: Program,
    post: Program,
    prompt: String,
    now_ms: u64,
    r: Option<OutboundRequest>,
) -> bool {
    &&& (pre.is_processing ==> post == pre && r is None)
    &&& (!pre.is_processing && pre.user_information.model is None ==> spec_submit_refused(
        pre,
        post,
        "Model selected is invalid, have you selected a model?"@,
    ) && r is None)
    &&& (!pre.is_processing && pre.user_information.model is Some && spec_resolve(
        pre.system_prompt,
    ) is None ==> spec_submit_refused(
        pre,
        post,
        "Could not get system prompt, is it selected?"@,
    ) && r is None)
    &&& (!pre.is_processing && pre.user_information.model is Some && spec_resolve(
        pre.system_prompt,
    ) is Some ==> spec_submit_accepted(pre, post, prompt, now_ms, r))
}

impl Program {
    /// Submits a prompt for generation. While busy this is a no-op. With
    /// no model selected, or a selected system prompt that does not
    /// resolve in the catalog, the submission is refused before any work
    /// starts: one error-flagged debug message and one idle notification
    /// are enqueued and nothing is returned. Otherwise the submission is
    /// accepted and the returned request is what the caller must open the
    /// upstream stream with.
    pub fn submit(&mut self, prompt: String, now_ms: u64) -> (r: Option<OutboundRequest>)
        requires
            old(self).wf(),
        ensures
            final(self).wf(),
            spec_submit_post(*old(self), *final(self), prompt, now_ms, r),
    {
        if self.is_processing {
            return Option::None;
        }
        let model = match &self.user_information.model {
            Option::None => {
                self.channels.debug_channel.send(
                    DebugMessage {
                        message: "Model selected is invalid, have you selected a model?".to_owned(),
                        is_error: true,
                    },
                );
                self.channels.debounce_channel.send(false);
                proof {
                    assert(final(self).channels.debug_channel@.take(
                        old(self).channels.debug_channel@.len() as int,
                    ) =~= old(self).channels.debug_channel@);
                }
                return Option::None;
            },
            Option::Some(m) => m.clone(),
        };
        let system_prompt = match self.system_prompt.get_current() {
            Option::None => {
                self.channels.debug_channel.send(
                    DebugMessage {
                        message: "Could not get system prompt, is it selected?".to_owned(),
                        is_error: true,
                    },
                );
                self.channels.debounce_channel.send(false);
                proof {
                    assert(final(self).channels.debug_channel@.take(
                        old(self).channels.debug_channel@.len() as int,
                    ) =~= old(self).channels.debug_channel@);
                }
                return Option::None;
            },
            Option::Some(s) => s,
        };
        self.is_processing = true;
        self.response.response_as_string = String::new();
        self.response.parsed_markdown = Document { source: "Waiting for bot...".to_owned() };
        self.prompt.prompt_time_sent = now_ms;
        self.user_information.chat_history.push_message(Correspondence::User(prompt.clone()));
        self.user_information.chat_history.bot_responding = true;
        let to_send_prompt: String = if self.user_information.current_chat_history_enabled {
            let mut p =
                "The following is a conversation between an AI language model and a User. You are the AI language model:\n                    ".to_owned();
            let context = self.user_information.chat_history.unravel();
            p.append(context.as_str());
            p.append(
                "\n                    [END CONVERSATION CONTEXT]\n                    Now, the user is sending another message: ",
            );
            p.append(prompt.as_str());
            p.append("\n                    Respond: \n                    ");
            proof {
                assert(p@ =~= spec_outbound_prompt(
                    true,
                    join_lines(old(self).user_information.chat_history.chats.deep_view()),
                    prompt@,
                ));
            }
            p
        } else {
            prompt.clone()
        };
        self.generation = Option::Some(
            Generation {
                prompt: prompt,
                system_prompt: system_prompt.clone(),
                model: model.clone(),
                filtering: self.app_state.filtering,
                logging: self.app_state.logging,
                history_enabled: self.user_information.current_chat_history_enabled,
                final_response: Vec::new(),
            },
        );
        self.prompt.prompt = String::new();
        proof {
            assert(concat_texts(Seq::<Seq<char>>::empty()) =~= Seq::<char>::empty());
            assert(final(self).generation matches Option::Some(g)
                && g.final_response.deep_view() =~= Seq::<Seq<char>>::empty());
        }
        Option::Some(
            OutboundRequest {
                model: model,
                prompt: to_send_prompt,
                system: system_prompt,
                temperature: self.user_information.temperature,
                think: self.user_information.think,
            },
        )
    }
}

/// The message reported when the stream could not be opened,
/// distinguishing an unsupported feature from an unreachable service.
pub open spec fn spec_open_failure_text(unsupported_feature: bool) -> Seq<char> {
    if unsupported_feature {
        "Error getting ollama response (have you enabled thinking on a bot which does not allow this feature?)"@
    } else {
        "Error getting ollama response (is the service reachable?)"@
    }
}

/// A stream that failed to open: exactly one error-flagged debug message
/// and exactly one idle notification are enqueued, the in-flight record is
/// dropped, and nothing else changes — no transcript entry and no log
/// record.
pub open spec fn spec_open_failed_post(pre: Program, post: Program, unsupported_feature: bool) -> bool {
    &&& post == Program { channels: post.channels, generation: post.generation, ..pre }
    &&& post.generation is None
    &&& spec_debug_pushed(
        pre.channels.debug_channel@,
        post.channels.debug_channel@,
        spec_open_failure_text(unsupported_feature),
        true,
    )
    &&& post.channels.debounce_channel@ == pre.channels.debounce_channel@.push(false)
    &&& post.channels.logging_channel@ == pre.channels.logging_channel@
    &&& post.channels.markdown_channel@ == pre.channels.markdown_channel@
}

/// One token was processed: its filtered text joins the in-flight token
/// list and the accumulation buffer, the freshly re-derived document
/// (whose source is the entire buffer) replaces whatever the renderer slot
/// held, and nothing else changes.
pub open spec fn spec_token_step(pre: Program, post: Program, token: Token) -> bool {
    &&& pre.generation matches Option::Some(g1) ==> {
        &&& post.generation matches Option::Some(g2) ==> {
            &&& g2 == Generation { final_response: g2.final_response, ..g1 }
            &&& g2.final_response.deep_view() == g1.final_response.deep_view().push(
                filtered_text(g1.filtering, token.response@),
            )
        }
        &&& post.generation is Some
        &&& post.response.response_as_string@ == pre.response.response_as_string@ + filtered_text(
            g1.filtering,
            token.response@,
        )
    }
    &&& post.response.parsed_markdown == pre.response.parsed_markdown
    &&& (post.channels.markdown_channel@ matches Option::Some(d) ==> d.source@
        == post.response.response_as_string@)
    &&& post.channels.markdown_channel@ is Some
    &&& post.channels.debug_channel@ == pre.channels.debug_channel@
    &&& post.channels.debounce_channel@ == pre.channels.debounce_channel@
    &&& post.channels.logging_channel@ == pre.channels.logging_channel@
    &&& post == Program {
        channels: post.channels,
        response: post.response,
        generation: post.generation,
        ..pre
    }
}

/// One log record was enqueued for the completed interaction `g`: the
/// record carries `g`'s filtering flag, prompt, filtered token list,
/// model, and resolved system prompt.
pub open spec fn spec_log_pushed(pre: Seq<Log>, post: Seq<Log>, g: Generation) -> bool {
    &&& post.len() == pre.len() + 1
    &&& post.take(pre.len() as int) == pre
    &&& post.last().filtering == g.filtering
    &&& post.last().prompt == g.prompt
    &&& post.last().response == g.final_response
    &&& post.last().model == Option::Some(g.model)
    &&& post.last().systemprompt == Option::Some(g.system_prompt)
}

/// The stream ended (normally or after a mid-stream error): exactly one
/// idle notification is enqueued; the joined accumulated text joins the
/// transcript as an assistant entry; when conversation-context mode is on,
/// the serialized exchange is recorded; when logging is on, exactly one
/// completed-interaction record is enqueued; the in-flight record is
/// dropped; and nothing else changes.
pub open spec fn spec_stream_closed_post(pre: Program, post: Program) -> bool {
    &&& pre.generation matches Option::Some(g) ==> {
        &&& (g.logging ==> spec_log_pushed(
            pre.channels.logging_channel@,
            post.channels.logging_channel@,
            g,
        ))
        &&& (!g.logging ==> post.channels.logging_channel@ == pre.channels.logging_channel@)
        &&& post.user_information.chat_history.messages@.len()
            == pre.user_information.chat_history.messages@.len() + 1
        &&& post.user_information.chat_history.messages@.take(
            pre.user_information.chat_history.messages@.len() as int,
        ) == pre.user_information.chat_history.messages@
        &&& (post.user_information.chat_history.messages@.last() matches Correspondence::Assistant(
            t,
        ) ==> t@ == concat_texts(g.final_response.deep_view()))
        &&& post.user_information.chat_history.messages@.last() is Assistant
        &&& (g.history_enabled ==> post.user_information.chat_history.chats.deep_view()
            == pre.user_information.chat_history.chats.deep_view().push(
            spec_exchange(g.prompt@, concat_texts(g.final_response.deep_view())),
        ))
        &&& (!g.history_enabled ==> post.user_information.chat_history.chats
            == pre.user_information.chat_history.chats)
    }
    &&& post.generation is None
    &&& !post.user_information.chat_history.bot_responding
    &&& post.channels.debounce_channel@ == pre.channels.debounce_channel@.push(false)
    &&& post.channels.debug_channel@ == pre.channels.debug_channel@
    &&& post.channels.markdown_channel@ == pre.channels.markdown_channel@
    &&& post.user_information == UserInformation {
        chat_history: post.user_information.chat_history,
        ..pre.user_information
    }
    &&& post == Program {
        channels: post.channels,
        user_information: post.user_information,
        generation: post.generation,
        ..pre
    }
}

impl Program {
    /// Reports that the upstream stream could not be opened at all. The
    /// idle notification still fires — it fires on every exit path — and
    /// the failure is reported, naming the likelier cause.
    pub fn stream_open_failed(&mut self, unsupported_feature: bool)
        requires
            old(self).wf(),
            old(self).generation is Some,
        ensures
            final(self).wf(),
            spec_open_failed_post(*old(self), *final(self), unsupported_feature),
    {
        let message = if unsupported_feature {
            "Error getting ollama response (have you enabled thinking on a bot which does not allow this feature?)".to_owned()
        } else {
            "Error getting ollama response (is the service reachable?)".to_owned()
        };
        self.channels.debug_channel.send(DebugMessage { message, is_error: true });
        self.channels.debounce_channel.send(false);
        self.generation = Option::None;
        proof {
            assert(final(self).channels.debug_channel@.take(
                old(self).channels.debug_channel@.len() as int,
            ) =~= old(self).channels.debug_channel@);
        }
    }

    /// Processes one received token, in arrival order: filter under the
    /// in-flight filtering flag, record the filtered text, append it to
    /// the accumulation buffer, and publish the re-derived document of the
    /// entire buffer, replacing any unread one.
    pub fn stream_token(&mut self, token: &Token)
        requires
            old(self).wf(),
            old(self).generation is Some,
        ensures
            final(self).wf(),
            final(self).generation is Some,
            spec_token_step(*old(self), *final(self), *token),
    {
        let mut g = self.generation.take().unwrap();
        let filtered = apply_filter(g.filtering, token.response.as_str());
        self.response.response_as_string.append(filtered.as_str());
        g.final_response.push(filtered);
        self.channels.markdown_channel.publish(
            Document { source: self.response.response_as_string.clone() },
        );
        self.generation = Option::Some(g);
        proof {
            let g1 = old(self).generation.unwrap();
            let g2 = final(self).generation.unwrap();
            assert(g2.final_response.deep_view() =~= g1.final_response.deep_view().push(
                filtered_text(g1.filtering, token.response@),
            ));
            assert(g2.final_response.deep_view().drop_last() =~= g1.final_response.deep_view());
            assert(final(self).response.response_as_string@ == concat_texts(
                g2.final_response.deep_view(),
            ));
        }
    }

    /// Processes one upstream chunk: every token it carries, in order.
    pub fn stream_chunk(&mut self, chunk: &Vec<Token>)
        requires
            old(self).wf(),
            old(self).generation is Some,
        ensures
            final(self).wf(),
            final(self).generation is Some,
            ({
                let g1 = old(self).generation.unwrap();
                let fed = spec_feed(
                    g1.filtering,
                    old(self).response.response_as_string@,
                    g1.final_response.deep_view(),
                    token_texts(chunk@),
                );
                &&& final(self).generation.unwrap() == Generation {
                    final_response: final(self).generation.unwrap().final_response,
                    ..g1
                }
                &&& final(self).generation.unwrap().final_response.deep_view() == fed.1
                &&& final(self).response.response_as_string@ == fed.0
            }),
            final(self).response.parsed_markdown == old(self).response.parsed_markdown,
            chunk@.len() == 0 ==> final(self).channels.markdown_channel@ == old(
                self,
            ).channels.markdown_channel@,
            chunk@.len() > 0 ==> (final(self).channels.markdown_channel@ matches Option::Some(d)
                && d.source@ == final(self).response.response_as_string@),
            final(self).channels.debug_channel@ == old(self).channels.debug_channel@,
            final(self).channels.debounce_channel@ == old(self).channels.debounce_channel@,
            final(self).channels.logging_channel@ == old(self).channels.logging_channel@,
            (*final(self) == Program {
                channels: final(self).channels,
                response: final(self).response,
                generation: final(self).generation,
                ..*old(self)
            }),
    {
        let ghost g1 = old(self).generation.unwrap();
        let ghost texts = token_texts(chunk@);
        let ghost acc0 = old(self).response.response_as_string@;
        let ghost toks0 = g1.final_response.deep_view();
        let mut i: usize = 0;
        proof {
            assert(texts.take(0) =~= Seq::<Seq<char>>::empty());
        }
        while i < chunk.len()
            invariant
                i <= chunk@.len(),
                self.wf(),
                self.generation is Some,
                g1 == old(self).generation.unwrap(),
                texts == token_texts(chunk@),
                acc0 == old(self).response.response_as_string@,
                toks0 == g1.final_response.deep_view(),
                (self.generation.unwrap() == Generation {
                    final_response: self.generation.unwrap().final_response,
                    ..g1
                }),
                self.generation.unwrap().final_response.deep_view() == spec_feed(
                    g1.filtering,
                    acc0,
                    toks0,
                    texts.take(i as int),
                ).1,
                self.response.response_as_string@ == spec_feed(
                    g1.filtering,
                    acc0,
                    toks0,
                    texts.take(i as int),
                ).0,
                self.response.parsed_markdown == old(self).response.parsed_markdown,
                i == 0 ==> self.channels.markdown_channel@ == old(self).channels.markdown_channel@,
                i > 0 ==> (self.channels.markdown_channel@ matches Option::Some(d) && d.source@
                    == self.response.response_as_string@),
                self.channels.debug_channel@ == old(self).channels.debug_channel@,
                self.channels.debounce_channel@ == old(self).channels.debounce_channel@,
                self.channels.logging_channel@ == old(self).channels.logging_channel@,
                (*self == Program {
                    channels: self.channels,
                    response: self.response,
                    generation: self.generation,
                    ..*old(self)
                }),
            decreases chunk@.len() - i,
        {
            proof {
                assert(texts.take(i as int + 1) =~= texts.take(i as int).push(texts[i as int]));
                lemma_feed_snoc(g1.filtering, acc0, toks0, texts.take(i as int), texts[i as int]);
                assert(texts[i as int] == chunk@[i as int].response@);
            }
            self.stream_token(&chunk[i]);
            i += 1;
        }
        proof {
            assert(texts.take(chunk@.len() as int) =~= texts);
        }
    }

    /// Completes the in-flight submission after the stream ended, normally
    /// or after a mid-stream error: the one idle notification, the
    /// assistant transcript entry with the joined accumulated text, the
    /// serialized exchange when conversation-context mode is on, and the
    /// completed-interaction record when logging is on.
    pub fn stream_closed(&mut self)
        requires
            old(self).wf(),
            old(self).generation is Some,
        ensures
            final(self).wf(),
            spec_stream_closed_post(*old(self), *final(self)),
    {
        let g = self.generation.take().unwrap();
        self.channels.debounce_channel.send(false);
        let joined = join_all(&g.final_response);
        if g.history_enabled {
            self.user_information.chat_history.generate_and_push(g.prompt.clone(), joined.clone());
        }
        self.user_information.chat_history.push_message(Correspondence::Assistant(joined));
        self.user_information.chat_history.bot_responding = false;
        if g.logging {
            let record = Log::create_with_current_time(
                g.filtering,
                Option::Some(g.model),
                g.final_response,
                Option::Some(g.system_prompt),
                g.prompt,
            );
            self.channels.logging_channel.send(record);
            proof {
                assert(final(self).channels.logging_channel@.take(
                    old(self).channels.logging_channel@.len() as int,
                ) =~= old(self).channels.logging_channel@);
            }
        }
        proof {
            assert(final(self).user_information.chat_history.messages@.take(
                old(self).user_information.chat_history.messages@.len() as int,
            ) =~= old(self).user_information.chat_history.messages@);
        }
    }
}

/// The tick counter after one tick: past the ceiling it restarts, so the
/// counter that follows a wrapped one is one.
pub open spec fn spec_next_tick(t: i32) -> int {
    if t > MAX_TICK {
        1
    } else {
        t + 1
    }
}

/// The probe a given counter value launches: at most one per tick.
pub open spec fn spec_tick_probe(next: int) -> TickProbe {
    if next == VERSION_TICK {
        TickProbe::VersionProbe
    } else if next == BOT_LIST_TICK {
        TickProbe::InventoryProbe
    } else {
        TickProbe::NoProbe
    }
}

/// Everything one tick does, in its fixed order: advance the counter (and
/// pick at most one probe to launch), drain the renderer's latest
/// document, drain at most one busy/idle flag, drain at most one debug
/// message, and drain at most one completed-interaction record into the
/// log — every receive non-blocking, nothing else touched.
pub open spec fn spec_tick_post(pre: Program, post: Program, r: TickOutcome) -> bool {
    &&& post.current_tick == spec_next_tick(pre.current_tick)
    &&& r.probe == spec_tick_probe(spec_next_tick(pre.current_tick))
    &&& (pre.channels.markdown_channel@ matches Option::Some(d) ==> post.response.parsed_markdown
        == d)
    &&& (pre.channels.markdown_channel@ is None ==> post.response.parsed_markdown
        == pre.response.parsed_markdown)
    &&& post.channels.markdown_channel@ is None
    &&& post.response.response_as_string == pre.response.response_as_string
    &&& (pre.channels.debounce_channel@.len() > 0 ==> post.is_processing
        == pre.channels.debounce_channel@[0] && post.channels.debounce_channel@
        == pre.channels.debounce_channel@.drop_first())
    &&& (pre.channels.debounce_channel@.len() == 0 ==> post.is_processing == pre.is_processing
        && post.channels.debounce_channel@ == pre.channels.debounce_channel@)
    &&& (pre.channels.debug_channel@.len() > 0 ==> post.debug_message
        == pre.channels.debug_channel@[0] && post.channels.debug_channel@
        == pre.channels.debug_channel@.drop_first())
    &&& (pre.channels.debug_channel@.len() == 0 ==> post.debug_message == pre.debug_message
        && post.channels.debug_channel@ == pre.channels.debug_channel@)
    &&& (pre.channels.logging_channel@.len() > 0 ==> post.app_state.logs.logs@ == spec_push_log(
        pre.app_state.logs.logs@,
        pre.channels.logging_channel@[0],
    ) && post.channels.logging_channel@ == pre.channels.logging_channel@.drop_first()
        && r.wrote_log)
    &&& (pre.channels.logging_channel@.len() == 0 ==> post.app_state.logs.logs@
        == pre.app_state.logs.logs@ && post.channels.logging_channel@
        == pre.channels.logging_channel@ && !r.wrote_log)
    &&& post.app_state.logs.began_logging == pre.app_state.logs.began_logging
    &&& post.app_state.logs.version == pre.app_state.logs.version
    &&& post.app_state.logs.filtering == pre.app_state.logs.filtering
    &&& (post.app_state == AppState { logs: post.app_state.logs, ..pre.app_state })
    &&& (post.response == Response {
        parsed_markdown: post.response.parsed_markdown,
        ..pre.response
    })
    &&& (post == Program {
        current_tick: post.current_tick,
        is_processing: post.is_processing,
        debug_message: post.debug_message,
        app_state: post.app_state,
        channels: post.channels,
        response: post.response,
        ..pre
    })
}

impl Program {
    /// One tick of the poll loop. Never blocks: every drain takes a value
    /// only if one is ready, and long-running probe work is handed back to
    /// the caller to run elsewhere. When a completed-interaction record
    /// was drained into the log, the caller must rewrite the log file and
    /// report a failure through `report_log_write_failure`.
    pub fn tick(&mut self) -> (r: TickOutcome)
        requires
            old(self).wf(),
        ensures
            final(self).wf(),
            spec_tick_post(*old(self), *final(self), r),
    {
        if self.current_tick > MAX_TICK {
            self.current_tick = 0;
        }
        self.current_tick = self.current_tick + 1;
        let probe = if self.current_tick == VERSION_TICK {
            TickProbe::VersionProbe
        } else if self.current_tick == BOT_LIST_TICK {
            TickProbe::InventoryProbe
        } else {
            TickProbe::NoProbe
        };
        match self.channels.markdown_channel.take() {
            Option::Some(md) => {
                self.response.parsed_markdown = md;
            },
            Option::None => {},
        }
        match self.channels.debounce_channel.try_recv() {
            Option::Some(is_processing) => {
                self.is_processing = is_processing;
            },
            Option::None => {},
        }
        match self.channels.debug_channel.try_recv() {
            Option::Some(debug_msg) => {
                self.debug_message = debug_msg;
            },
            Option::None => {},
        }
        let mut wrote_log = false;
        match self.channels.logging_channel.try_recv() {
            Option::Some(log) => {
                self.app_state.logs.push_log(log);
                wrote_log = true;
            },
            Option::None => {},
        }
        TickOutcome { probe, wrote_log }
    }

    /// Records the outcome of a version probe: the service status becomes
    /// exactly what the outcome maps to — failures become `Offline`, never
    /// a stale value — and nothing else changes.
    pub fn apply_version_outcome(&mut self, outcome: VersionProbeOutcome)
        requires
            old(self).wf(),
        ensures
            final(self).wf(),
            final(self).app_state.ollama_state == spec_classify(outcome),
            (final(self).app_state == AppState {
                ollama_state: final(self).app_state.ollama_state,
                ..old(self).app_state
            }),
            (*final(self) == Program { app_state: final(self).app_state, ..*old(self) }),
    {
        self.app_state.ollama_state = crate::status::classify_version_probe(outcome);
    }

    /// Records the outcome of an inventory probe. A successful listing is
    /// merged set-like into the inventory, first-seen order preserved; a
    /// failed listing clears the inventory — never leaving a half-updated
    /// list — and enqueues one error-flagged debug message.
    pub fn apply_inventory_outcome(&mut self, outcome: Option<Vec<String>>)
        requires
            old(self).wf(),
        ensures
            final(self).wf(),
            (outcome matches Option::Some(found) ==> {
                &&& final(self).app_state.bots_list.deep_view() == spec_merge(
                    old(self).app_state.bots_list.deep_view(),
                    found.deep_view(),
                )
                &&& final(self).channels.debug_channel@ == old(self).channels.debug_channel@
            }),
            (outcome is None ==> {
                &&& final(self).app_state.bots_list.deep_view() == Seq::<Seq<char>>::empty()
                &&& spec_debug_pushed(
                    old(self).channels.debug_channel@,
                    final(self).channels.debug_channel@,
                    "Error occured while listing bots"@,
                    true,
                )
            }),
            final(self).channels.debounce_channel@ == old(self).channels.debounce_channel@,
            final(self).channels.logging_channel@ == old(self).channels.logging_channel@,
            final(self).channels.markdown_channel@ == old(self).channels.markdown_channel@,
            (final(self).app_state == AppState {
                bots_list: final(self).app_state.bots_list,
                ..old(self).app_state
            }),
            (*final(self) == Program {
                app_state: final(self).app_state,
                channels: final(self).channels,
                ..*old(self)
            }),
    {
        match outcome {
            Option::Some(found) => {
                proof {
                    crate::status::lemma_merge_no_duplicates(
                        self.app_state.bots_list.deep_view(),
                        found.deep_view(),
                    );
                }
                crate::status::merge_models(&mut self.app_state.bots_list, &found);
            },
            Option::None => {
                self.channels.debug_channel.send(
                    DebugMessage {
                        message: "Error occured while listing bots".to_owned(),
                        is_error: true,
                    },
                );
                self.app_state.bots_list = Vec::new();
                proof {
                    assert(final(self).channels.debug_channel@.take(
                        old(self).channels.debug_channel@.len() as int,
                    ) =~= old(self).channels.debug_channel@);
                    assert(final(self).app_state.bots_list.deep_view()
                        =~= Seq::<Seq<char>>::empty());
                }
            },
        }
    }

    /// Records that rewriting the log file failed: the failure is surfaced
    /// through the debug message field directly — the poll loop has no
    /// further channel to forward through — and the in-memory log is kept
    /// for the next attempt.
    pub fn report_log_write_failure(&mut self)
        requires
            old(self).wf(),
        ensures
            final(self).wf(),
            final(self).debug_message.message@ == "Failed to write to history.json"@,
            final(self).debug_message.is_error,
            (*final(self) == Program { debug_message: final(self).debug_message, ..*old(self) }),
    {
        self.debug_message = DebugMessage {
            message: "Failed to write to history.json".to_owned(),
            is_error: true,
        };
    }
}

impl Program {
    /// The program state at startup: idle, tick zero, empty channels and
    /// buffers, the given catalog with an empty name selected, the given
    /// flags, an empty inventory, the service presumed offline, and a
    /// fresh log whose header records the start time, the application
    /// version, and the filtering default. `json_error` carries whatever
    /// the configuration loader had to report; it becomes the initial
    /// debug message, flagged as an error exactly when non-empty.
    pub fn init(
        system_prompts: Vec<(String, String)>,
        filtering: bool,
        logging: bool,
        info_popup: bool,
        dark_mode: bool,
        version: String,
        json_error: String,
    ) -> (p: Program)
        requires
            spec_catalog_keys(system_prompts@).no_duplicates(),
        ensures
            p.wf(),
            !p.is_processing,
            p.current_tick == 0,
            p.installing_model@ == Seq::<char>::empty(),
            p.debug_message.message == json_error,
            p.debug_message.is_error == (json_error@.len() != 0),
            p.system_prompt.system_prompts == system_prompts,
            (p.system_prompt.system_prompt matches Option::Some(k) && k@ == Seq::<char>::empty()),
            p.channels.markdown_channel@ is None,
            p.channels.debug_channel@ == Seq::<DebugMessage>::empty(),
            p.channels.debounce_channel@ == Seq::<bool>::empty(),
            p.channels.logging_channel@ == Seq::<Log>::empty(),
            p.user_information.model is None,
            !p.user_information.think,
            p.user_information.temperature == 70,
            p.user_information.chat_history.chats@ == Seq::<String>::empty(),
            p.user_information.chat_history.messages@ == Seq::<Correspondence>::empty(),
            !p.user_information.chat_history.bot_responding,
            p.user_information.current_chat_history_enabled,
            p.user_information.ip_address.ip@ == "127.0.0.1"@,
            p.user_information.ip_address.port@ == "11434"@,
            p.response.response_as_string@ == Seq::<char>::empty(),
            p.response.parsed_markdown.source@ == Seq::<char>::empty(),
            p.prompt.prompt_time_sent == 0,
            p.prompt.prompt@ == Seq::<char>::empty(),
            p.app_state.filtering == filtering,
            p.app_state.logging == logging,
            p.app_state.dark_mode == dark_mode,
            p.app_state.gui_state == (if info_popup {
                GUIState::InfoPopup
            } else {
                GUIState::Main
            }),
            p.app_state.ollama_state is Offline,
            p.app_state.bots_list@ == Seq::<String>::empty(),
            p.app_state.logs.version == version,
            p.app_state.logs.filtering == filtering,
            p.app_state.logs.logs@ == Seq::<Log>::empty(),
            p.generation is None,
    {
        let is_error = json_error.as_str().unicode_len() != 0;
        Program {
            is_processing: false,
            current_tick: 0,
            installing_model: String::new(),
            debug_message: DebugMessage { message: json_error, is_error },
            system_prompt: SystemPrompt {
                system_prompts,
                system_prompt: Option::Some(String::new()),
            },
            app_state: AppState {
                filtering,
                logs: crate::log::History {
                    began_logging: crate::log::current_timestamp(),
                    version,
                    filtering,
                    logs: Vec::new(),
                },
                logging,
                ollama_state: ServiceStatus::Offline,
                bots_list: Vec::new(),
                gui_state: if info_popup {
                    GUIState::InfoPopup
                } else {
                    GUIState::Main
                },
                dark_mode,
            },
            channels: Channels::new(),
            user_information: UserInformation {
                model: Option::None,
                think: false,
                temperature: 70,
                chat_history: CurrentChat::new(),
                current_chat_history_enabled: true,
                ip_address: HostLocation {
                    ip: "127.0.0.1".to_owned(),
                    port: "11434".to_owned(),
                },
            },
            response: Response {
                response_as_string: String::new(),
                parsed_markdown: Document { source: String::new() },
            },
            prompt: Prompt { prompt_time_sent: 0, prompt: String::new() },
            generation: Option::None,
        }
    }
}

/// An event handed to the poll loop: a tick, a submission, or a
/// field-update from the interface.
pub enum Message {
    ListPrompt,
    ToggleThinking,
    ToggleSettings,
    ToggleAdvancedSettings,
    SystemPromptChange(String),
    Prompt(String),
    UpdatePrompt(String),
    NoMessage,
    Tick,
    CopyPressed(String),
    InstallationPrompt,
    ModelChange(String),
    InstallModel(String),
    UpdateInstall(String),
    UpdateTemperature(u8),
    ToggleInfoPopup,
    ToggleChatHistory,
    WipeChatHistory,
    ChangeIp(String),
    ChangePort(String),
}

/// What the caller must do after an update: nothing, launch a probe (and
/// perhaps rewrite the log file), open the upstream stream for an accepted
/// submission, open a page, copy text, or pull a model — all work the poll
/// loop itself must never block on.
pub enum UpdateAction {
    DoNothing,
    Ticked(TickOutcome),
    OpenRequest(OutboundRequest),
    OpenDownloadPage,
    OpenSearchPage,
    CopyToClipboard(String),
    PullModel(String),
}

impl Program {
    /// Dispatches one event. Field updates touch exactly their field;
    /// `Tick` runs one poll-loop tick; `Prompt` submits.
    pub fn update(&mut self, message: Message, now_ms: u64) -> (r: UpdateAction)
        requires
            old(self).wf(),
        ensures
            final(self).wf(),
            match message {
                Message::NoMessage => *final(self) == *old(self) && r is DoNothing,
                Message::Tick => (r matches UpdateAction::Ticked(t) && spec_tick_post(
                    *old(self),
                    *final(self),
                    t,
                )),
                Message::Prompt(p) => {
                    &&& (r matches UpdateAction::OpenRequest(req) ==> spec_submit_post(
                        *old(self),
                        *final(self),
                        p,
                        now_ms,
                        Option::Some(req),
                    ))
                    &&& (r is DoNothing ==> spec_submit_post(
                        *old(self),
                        *final(self),
                        p,
                        now_ms,
                        Option::None,
                    ))
                    &&& (r is DoNothing || r is OpenRequest)
                },
                Message::UpdatePrompt(p) => {
                    &&& final(self).prompt.prompt == p
                    &&& final(self).prompt.prompt_time_sent == old(self).prompt.prompt_time_sent
                    &&& (*final(self) == Program { prompt: final(self).prompt, ..*old(self) })
                    &&& r is DoNothing
                },
                Message::ModelChange(m) => {
                    &&& final(self).user_information.model == Option::Some(m)
                    &&& (final(self).user_information == UserInformation {
                        model: final(self).user_information.model,
                        ..old(self).user_information
                    })
                    &&& (*final(self) == Program {
                        user_information: final(self).user_information,
                        ..*old(self)
                    })
                    &&& r is DoNothing
                },
                Message::SystemPromptChange(s) => {
                    &&& final(self).system_prompt.system_prompt == Option::Some(s)
                    &&& final(self).system_prompt.system_prompts == old(
                        self,
                    ).system_prompt.system_prompts
                    &&& (*final(self) == Program {
                        system_prompt: final(self).system_prompt,
                        ..*old(self)
                    })
                    &&& r is DoNothing
                },
                Message::ToggleThinking => {
                    &&& final(self).user_information.think == !old(self).user_information.think
                    &&& (final(self).user_information == UserInformation {
                        think: final(self).user_information.think,
                        ..old(self).user_information
                    })
                    &&& (*final(self) == Program {
                        user_information: final(self).user_information,
                        ..*old(self)
                    })
                    &&& r is DoNothing
                },
                Message::UpdateTemperature(n) => {
                    &&& final(self).user_information.temperature == n
                    &&& (final(self).user_information == UserInformation {
                        temperature: final(self).user_information.temperature,
                        ..old(self).user_information
                    })
                    &&& (*final(self) == Program {
                        user_information: final(self).user_information,
                        ..*old(self)
                    })
                    &&& r is DoNothing
                },
                Message::ToggleChatHistory => {
                    &&& final(self).user_information.current_chat_history_enabled == !old(
                        self,
                    ).user_information.current_chat_history_enabled
                    &&& (final(self).user_information == UserInformation {
                        current_chat_history_enabled: final(self)
                            .user_information.current_chat_history_enabled,
                        ..old(self).user_information
                    })
                    &&& (*final(self) == Program {
                        user_information: final(self).user_information,
                        ..*old(self)
                    })
                    &&& r is DoNothing
                },
                Message::WipeChatHistory => {
                    &&& final(self).user_information.chat_history.chats@ == Seq::<String>::empty()
                    &&& final(self).user_information.chat_history.messages@ == Seq::<
                        Correspondence,
                    >::empty()
                    &&& !final(self).user_information.chat_history.bot_responding
                    &&& (final(self).user_information == UserInformation {
                        chat_history: final(self).user_information.chat_history,
                        ..old(self).user_information
                    })
                    &&& (*final(self) == Program {
                        user_information: final(self).user_information,
                        ..*old(self)
                    })
                    &&& r is DoNothing
                },
                Message::ChangeIp(ip) => {
                    &&& final(self).user_information.ip_address.ip == ip
                    &&& final(self).user_information.ip_address.port == old(
                        self,
                    ).user_information.ip_address.port
                    &&& (final(self).user_information == UserInformation {
                        ip_address: final(self).user_information.ip_address,
                        ..old(self).user_information
                    })
                    &&& (*final(self) == Program {
                        user_information: final(self).user_information,
                        ..*old(self)
                    })
                    &&& r is DoNothing
                },
                Message::ChangePort(port) => {
                    &&& final(self).user_information.ip_address.port == port
                    &&& final(self).user_information.ip_address.ip == old(
                        self,
                    ).user_information.ip_address.ip
                    &&& (final(self).user_information == UserInformation {
                        ip_address: final(self).user_information.ip_address,
                        ..old(self).user_information
                    })
                    &&& (*final(self) == Program {
                        user_information: final(self).user_information,
                        ..*old(self)
                    })
                    &&& r is DoNothing
                },
                Message::ToggleInfoPopup => {
                    &&& final(self).app_state.gui_state == (if old(self).app_state.gui_state
                        == GUIState::InfoPopup {
                        GUIState::Main
                    } else {
                        GUIState::InfoPopup
                    })
                    &&& (final(self).app_state == AppState {
                        gui_state: final(self).app_state.gui_state,
                        ..old(self).app_state
                    })
                    &&& (*final(self) == Program { app_state: final(self).app_state, ..*old(self) })
                    &&& r is DoNothing
                },
                Message::ToggleSettings => {
                    &&& final(self).app_state.gui_state == (if old(self).app_state.gui_state
                        == GUIState::Settings {
                        GUIState::Main
                    } else {
                        GUIState::Settings
                    })
                    &&& (final(self).app_state == AppState {
                        gui_state: final(self).app_state.gui_state,
                        ..old(self).app_state
                    })
                    &&& (*final(self) == Program { app_state: final(self).app_state, ..*old(self) })
                    &&& r is DoNothing
                },
                Message::ToggleAdvancedSettings => {
                    &&& final(self).app_state.gui_state == (if old(self).app_state.gui_state
                        == GUIState::AdvancedSettings {
                        GUIState::Settings
                    } else {
                        GUIState::AdvancedSettings
                    })
                    &&& (final(self).app_state == AppState {
                        gui_state: final(self).app_state.gui_state,
                        ..old(self).app_state
                    })
                    &&& (*final(self) == Program { app_state: final(self).app_state, ..*old(self) })
                    &&& r is DoNothing
                },
                Message::UpdateInstall(m) => {
                    &&& final(self).installing_model == m
                    &&& (*final(self) == Program {
                        installing_model: final(self).installing_model,
                        ..*old(self)
                    })
                    &&& r is DoNothing
                },
                Message::InstallModel(m) => {
                    &&& spec_debug_pushed(
                        old(self).channels.debug_channel@,
                        final(self).channels.debug_channel@,
                        "Installing model... "@ + m@,
                        false,
                    )
                    &&& final(self).channels.debounce_channel@ == old(
                        self,
                    ).channels.debounce_channel@
                    &&& final(self).channels.logging_channel@ == old(self).channels.logging_channel@
                    &&& final(self).channels.markdown_channel@ == old(
                        self,
                    ).channels.markdown_channel@
                    &&& (*final(self) == Program { channels: final(self).channels, ..*old(self) })
                    &&& (r matches UpdateAction::PullModel(m2) && m2 == m)
                },
                Message::InstallationPrompt => *final(self) == *old(self) && r is OpenDownloadPage,
                Message::ListPrompt => *final(self) == *old(self) && r is OpenSearchPage,
                Message::CopyPressed(s) => *final(self) == *old(self) && (r
                    matches UpdateAction::CopyToClipboard(t) && t == s),
            },
    {
        match message {
            Message::NoMessage => UpdateAction::DoNothing,
            Message::Tick => {
                let t = self.tick();
                UpdateAction::Ticked(t)
            },
            Message::Prompt(p) => {
                match self.submit(p, now_ms) {
                    Option::Some(req) => UpdateAction::OpenRequest(req),
                    Option::None => UpdateAction::DoNothing,
                }
            },
            Message::UpdatePrompt(p) => {
                self.prompt.prompt = p;
                UpdateAction::DoNothing
            },
            Message::ModelChange(m) => {
                self.user_information.model = Option::Some(m);
                UpdateAction::DoNothing
            },
            Message::SystemPromptChange(s) => {
                self.system_prompt.system_prompt = Option::Some(s);
                UpdateAction::DoNothing
            },
            Message::ToggleThinking => {
                self.user_information.think = !self.user_information.think;
                UpdateAction::DoNothing
            },
            Message::UpdateTemperature(n) => {
                self.user_information.temperature = n;
                UpdateAction::DoNothing
            },
            Message::ToggleChatHistory => {
                self.user_information.current_chat_history_enabled =
                    !self.user_information.current_chat_history_enabled;
                UpdateAction::DoNothing
            },
            Message::WipeChatHistory => {
                self.user_information.chat_history = CurrentChat::new();
                UpdateAction::DoNothing
            },
            Message::ChangeIp(ip) => {
                self.user_information.ip_address.ip = ip;
                UpdateAction::DoNothing
            },
            Message::ChangePort(port) => {
                self.user_information.ip_address.port = port;
                UpdateAction::DoNothing
            },
            Message::ToggleInfoPopup => {
                if self.app_state.gui_state == GUIState::InfoPopup {
                    self.app_state.gui_state = GUIState::Main;
                } else {
                    self.app_state.gui_state = GUIState::InfoPopup;
                }
                UpdateAction::DoNothing
            },
            Message::ToggleSettings => {
                if self.app_state.gui_state == GUIState::Settings {
                    self.app_state.gui_state = GUIState::Main;
                } else {
                    self.app_state.gui_state = GUIState::Settings;
                }
                UpdateAction::DoNothing
            },
            Message::ToggleAdvancedSettings => {
                if self.app_state.gui_state == GUIState::AdvancedSettings {
                    self.app_state.gui_state = GUIState::Settings;
                } else {
                    self.app_state.gui_state = GUIState::AdvancedSettings;
                }
                UpdateAction::DoNothing
            },
            Message::UpdateInstall(m) => {
                self.installing_model = m;
                UpdateAction::DoNothing
            },
            Message::InstallModel(m) => {
                let mut text = "Installing model... ".to_owned();
                text.append(m.as_str());
                self.channels.debug_channel.send(DebugMessage { message: text, is_error: false });
                proof {
                    assert(final(self).channels.debug_channel@.take(
                        old(self).channels.debug_channel@.len() as int,
                    ) =~= old(self).channels.debug_channel@);
                }
                UpdateAction::PullModel(m)
            },
            Message::InstallationPrompt => UpdateAction::OpenDownloadPage,
            Message::ListPrompt => UpdateAction::OpenSearchPage,
            Message::CopyPressed(s) => UpdateAction::CopyToClipboard(s),
        }
    }
}

/// At-most-one idle transition per submission: either terminal step of an
/// in-flight submission — the stream failing to open, or the stream
/// closing — enqueues exactly one `Idle(false)` notification, and disposes
/// of the in-flight record, so no further terminal step applies to that
/// submission (both require one to be in flight).
pub proof fn lemma_one_idle_per_submission(
    pre: Program,
    post: Program,
    closed: bool,
    unsupported_feature: bool,
)
    requires
        pre.generation is Some,
        closed ==> spec_stream_closed_post(pre, post),
        !closed ==> spec_open_failed_post(pre, post, unsupported_feature),
    ensures
        post.channels.debounce_channel@ == pre.channels.debounce_channel@.push(false),
        post.generation is None,
{
}

/// Submitting while busy is a no-op: no state changes, no notification is
/// enqueued, no transcript entry appears, and no request is handed out, so
/// no background task starts.
pub proof fn lemma_submit_while_busy_is_noop(
    pre: Program,
    post: Program,
    prompt: String,
    now_ms: u64,
    r: Option<OutboundRequest>,
)
    requires
        spec_submit_post(pre, post, prompt, now_ms, r),
        pre.is_processing,
    ensures
        post == pre,
        r is None,
{
}

/// An unresolved system prompt blocks generation: with a model selected
/// but a selected system-prompt name that does not resolve in the catalog,
/// `submit` leaves the transcript and the busy flag unchanged, hands out
/// no request, and enqueues exactly one error-flagged debug message.
pub proof fn lemma_unresolved_prompt_blocks_generation(
    pre: Program,
    post: Program,
    prompt: String,
    now_ms: u64,
    r: Option<OutboundRequest>,
)
    requires
        spec_submit_post(pre, post, prompt, now_ms, r),
        !pre.is_processing,
        pre.user_information.model is Some,
        spec_resolve(pre.system_prompt) is None,
    ensures
        r is None,
        post.user_information == pre.user_information,
        post.is_processing == pre.is_processing,
        post.generation == pre.generation,
        spec_debug_pushed(
            pre.channels.debug_channel@,
            post.channels.debug_channel@,
            "Could not get system prompt, is it selected?"@,
            true,
        ),
{
}

} // verus!
