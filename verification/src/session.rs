//! The per-message orchestration state machine.
//!
//! The surrounding process drives one `Session` per inbound message: it
//! performs each returned [`Action`] in order and reports the outcome of a
//! downloader run through [`Session::on_download_result`] and of an upload
//! through [`Session::on_delivery_result`]. A failed download skips to the
//! next URL; a failed upload aborts the remaining URLs of the message. In
//! both cases the local output file of a completed download is removed
//! exactly once.

use vstd::prelude::*;

use crate::compose::plan_delivery;
use crate::compose::plan_ok;
use crate::compose::DeliveryPlan;
use crate::extract::extract_urls;
use crate::extract::extraction_spec;
use crate::extract::MessageModel;
use crate::invoke::build_invocation;
use crate::invoke::invocation_spec;
use crate::invoke::output_name;
use crate::invoke::output_name_spec;

verus! {

/// Where a session stands: waiting on a downloader run for the current URL,
/// waiting on an upload of the current file, or done with the message.
#[derive(Clone, Copy, Debug, PartialEq, Eq, Structural)]
pub enum Phase {
    Fetching,
    Delivering,
    Finished,
}

/// One thing the surrounding process must do: run the downloader with the
/// given arguments, upload a file as planned, delete the original message,
/// or remove a local file.
#[derive(Clone, Debug)]
pub enum Action {
    RunDownloader { args: Vec<String> },
    SendVideo { plan: DeliveryPlan },
    DeleteOriginal,
    RemoveFile { path: String },
}

/// The state of handling one inbound message: the extracted URLs, the index
/// of the current one, the delivery context taken from the message, and the
/// phase.
pub struct Session {
    pub urls: Vec<String>,
    pub idx: usize,
    pub is_private: bool,
    pub sender_name: String,
    pub sender_url: Option<String>,
    pub text: String,
    pub phase: Phase,
}

/// A session's index stays within its URL list, and points at an actual URL
/// whenever work is still pending.
pub open spec fn wf(s: Session) -> bool {
    &&& s.idx <= s.urls@.len()
    &&& (s.phase != Phase::Finished ==> s.idx < s.urls@.len())
}

/// The URL a session is currently working on.
pub open spec fn current_url(s: Session) -> Seq<char> {
    s.urls@[s.idx as int]@
}

/// How many origin-message deletions a list of actions performs.
pub open spec fn num_deletions(acts: Seq<Action>) -> nat
    decreases acts.len(),
{
    if acts.len() == 0 {
        0
    } else {
        num_deletions(acts.drop_last()) + (if (acts.last() matches Action::DeleteOriginal) {
            1nat
        } else {
            0nat
        })
    }
}

/// How many removals of the local file at `path` a list of actions
/// performs.
pub open spec fn num_removals_of(acts: Seq<Action>, path: Seq<char>) -> nat
    decreases acts.len(),
{
    if acts.len() == 0 {
        0
    } else {
        num_removals_of(acts.drop_last(), path) + (if (acts.last() matches Action::RemoveFile {
            path: p,
        } && p@ == path) {
            1nat
        } else {
            0nat
        })
    }
}

impl Session {
    /// Begin handling one inbound message. When extraction finds no URL
    /// (including the opt-out case) the session is immediately finished and
    /// nothing at all is done; otherwise the first downloader run is
    /// requested.
    pub fn start(msg: &MessageModel) -> (r: (Session, Vec<Action>))
        ensures
            wf(r.0),
            r.0.urls.deep_view() == extraction_spec(*msg),
            r.0.idx == 0,
            r.0.is_private == msg.chat_is_private,
            r.0.sender_name == msg.sender_name,
            r.0.sender_url == msg.sender_url,
            r.0.text@ == (match msg.text {
                Some(t) => t@,
                None => Seq::<char>::empty(),
            }),
            extraction_spec(*msg).len() == 0 ==> r.0.phase == Phase::Finished && r.1@.len() == 0,
            extraction_spec(*msg).len() > 0 ==> ({
                &&& r.0.phase == Phase::Fetching
                &&& r.1@.len() == 1
                &&& (r.1@[0] matches Action::RunDownloader { args } && args.deep_view()
                    == invocation_spec(extraction_spec(*msg)[0]))
            }),
    {
        let urls = extract_urls(msg);
        let text = match &msg.text {
            Some(t) => t.clone(),
            None => String::new(),
        };
        let sender_url = match &msg.sender_url {
            Some(u) => Some(u.clone()),
            None => None,
        };
        let mut actions: Vec<Action> = Vec::new();
        let phase: Phase;
        if urls.len() == 0 {
            phase = Phase::Finished;
        } else {
            phase = Phase::Fetching;
            let args = build_invocation(urls[0].as_str());
            actions.push(Action::RunDownloader { args });
        }
        let s = Session {
            urls,
            idx: 0,
            is_private: msg.chat_is_private,
            sender_name: msg.sender_name.clone(),
            sender_url,
            text,
            phase,
        };
        (s, actions)
    }

    /// Take the outcome of the downloader run for the current URL. On
    /// success the file is to be uploaded as planned for this chat; on
    /// failure the URL is skipped and the next one is fetched, so one bad
    /// URL never aborts the rest of the message. No origin-message deletion
    /// happens here.
    pub fn on_download_result(&mut self, success: bool) -> (r: Vec<Action>)
        requires
            wf(*old(self)),
            old(self).phase == Phase::Fetching,
        ensures
            wf(*final(self)),
            final(self).urls == old(self).urls,
            final(self).is_private == old(self).is_private,
            final(self).sender_name == old(self).sender_name,
            final(self).sender_url == old(self).sender_url,
            final(self).text == old(self).text,
            num_deletions(r@) == 0,
            success ==> ({
                &&& final(self).phase == Phase::Delivering
                &&& final(self).idx == old(self).idx
                &&& r@.len() == 1
                &&& (r@[0] matches Action::SendVideo { plan } && plan_ok(
                    plan,
                    old(self).is_private,
                    old(self).sender_name@,
                    old(self).text@,
                    old(self).sender_url.deep_view(),
                    output_name_spec(current_url(*old(self))),
                ))
            }),
            !success ==> ({
                &&& final(self).idx == old(self).idx + 1
                &&& if old(self).idx + 1 < old(self).urls@.len() {
                    &&& final(self).phase == Phase::Fetching
                    &&& r@.len() == 1
                    &&& (r@[0] matches Action::RunDownloader { args } && args.deep_view()
                        == invocation_spec(old(self).urls@[old(self).idx + 1]@))
                } else {
                    final(self).phase == Phase::Finished && r@.len() == 0
                }
            }),
    {
        let mut actions: Vec<Action> = Vec::new();
        if success {
            let path = output_name(self.urls[self.idx].as_str());
            let plan = plan_delivery(
                self.is_private,
                self.sender_name.as_str(),
                self.text.as_str(),
                &self.sender_url,
                path,
            );
            actions.push(Action::SendVideo { plan });
            self.phase = Phase::Delivering;
        } else {
            let n = self.urls.len();
            self.idx = self.idx + 1;
            if self.idx < n {
                let args = build_invocation(self.urls[self.idx].as_str());
                actions.push(Action::RunDownloader { args });
            } else {
                self.phase = Phase::Finished;
            }
        }
        proof {
            reveal_with_fuel(num_deletions, 3);
        }
        actions
    }

    /// Take the outcome of uploading the current file. The local output
    /// file is removed exactly once whatever the outcome. A successful
    /// upload in a non-private chat first deletes the original message —
    /// exactly one deletion, and none in a private chat or on failure —
    /// and the session moves on to the next URL; a failed upload aborts the
    /// remaining URLs of the message.
    pub fn on_delivery_result(&mut self, success: bool) -> (r: Vec<Action>)
        requires
            wf(*old(self)),
            old(self).phase == Phase::Delivering,
        ensures
            wf(*final(self)),
            final(self).urls == old(self).urls,
            final(self).is_private == old(self).is_private,
            final(self).sender_name == old(self).sender_name,
            final(self).sender_url == old(self).sender_url,
            final(self).text == old(self).text,
            num_removals_of(r@, output_name_spec(current_url(*old(self)))) == 1,
            num_deletions(r@) == (if success && !old(self).is_private {
                1nat
            } else {
                0nat
            }),
            !success ==> ({
                &&& final(self).phase == Phase::Finished
                &&& final(self).idx == old(self).idx
                &&& r@.len() == 1
                &&& (r@[0] matches Action::RemoveFile { path } && path@ == output_name_spec(
                    current_url(*old(self)),
                ))
            }),
            success ==> ({
                let d: int = if old(self).is_private {
                    0
                } else {
                    1
                };
                let more = old(self).idx + 1 < old(self).urls@.len();
                &&& final(self).idx == old(self).idx + 1
                &&& r@.len() == d + 1 + (if more {
                    1int
                } else {
                    0int
                })
                &&& (!old(self).is_private ==> r@[0] matches Action::DeleteOriginal)
                &&& (r@[d] matches Action::RemoveFile { path } && path@ == output_name_spec(
                    current_url(*old(self)),
                ))
                &&& (more ==> final(self).phase == Phase::Fetching && (r@[d + 1]
                    matches Action::RunDownloader { args } && args.deep_view() == invocation_spec(
                    old(self).urls@[old(self).idx + 1]@,
                )))
                &&& (!more ==> final(self).phase == Phase::Finished)
            }),
    {
        let mut actions: Vec<Action> = Vec::new();
        let path = output_name(self.urls[self.idx].as_str());
        if success {
            if !self.is_private {
                actions.push(Action::DeleteOriginal);
            }
            actions.push(Action::RemoveFile { path });
            let n = self.urls.len();
            self.idx = self.idx + 1;
            if self.idx < n {
                let args = build_invocation(self.urls[self.idx].as_str());
                actions.push(Action::RunDownloader { args });
                self.phase = Phase::Fetching;
            } else {
                self.phase = Phase::Finished;
            }
        } else {
            actions.push(Action::RemoveFile { path });
            self.phase = Phase::Finished;
        }
        proof {
            reveal_with_fuel(num_deletions, 4);
            reveal_with_fuel(num_removals_of, 4);
        }
        actions
    }
}

} // verus!
