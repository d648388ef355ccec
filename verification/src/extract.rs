//! Finding URL annotations in an inbound message.
//!
//! An inbound message carries optional text and a list of entity
//! annotations, each marking a substring of the text with a semantic kind.
//! Extraction returns the texts of the URL-kind annotations in their
//! original order, unless the message text contains the opt-out marker, in
//! which case nothing is extracted.

use vstd::prelude::*;

use crate::text::contains_seq;
use crate::text::contains_str;

verus! {

/// The semantic kind of an entity annotation. The relay only distinguishes
/// URL annotations from everything else.
#[derive(Clone, Copy, Debug, PartialEq, Eq, Structural)]
pub enum EntityKind {
    Url,
    Other,
}

/// One entity annotation: its kind and the annotated substring of the
/// message text.
#[derive(Clone, Debug)]
pub struct Entity {
    pub kind: EntityKind,
    pub text: String,
}

/// An inbound chat message, reduced to what the relay reads: the chat-type
/// flag, the sender's display name and optional profile link, the optional
/// message text, and the entity annotations.
#[derive(Clone, Debug)]
pub struct MessageModel {
    pub chat_is_private: bool,
    pub sender_name: String,
    pub sender_url: Option<String>,
    pub text: Option<String>,
    pub entities: Vec<Entity>,
}

/// The substring that asks the relay to leave a message alone.
pub open spec fn opt_out_marker() -> Seq<char> {
    "bot-ignore"@
}

/// The message text contains the opt-out marker.
pub open spec fn opted_out(m: MessageModel) -> bool {
    match m.text {
        Some(t) => contains_seq(t@, opt_out_marker()),
        None => false,
    }
}

/// The texts of the URL-kind annotations among `ents`, in order.
pub open spec fn url_texts(ents: Seq<Entity>) -> Seq<Seq<char>>
    decreases ents.len(),
{
    if ents.len() == 0 {
        Seq::empty()
    } else {
        let prefix = url_texts(ents.drop_last());
        if ents.last().kind == EntityKind::Url {
            prefix.push(ents.last().text@)
        } else {
            prefix
        }
    }
}

/// What extraction returns for a message: nothing when the message opts
/// out, the URL annotation texts in order otherwise.
pub open spec fn extraction_spec(m: MessageModel) -> Seq<Seq<char>> {
    if opted_out(m) {
        Seq::empty()
    } else {
        url_texts(m.entities@)
    }
}

/// A message without URL-kind annotations extracts to the empty sequence.
pub proof fn lemma_no_urls_extracts_nothing(m: MessageModel)
    requires
        forall|i: int|
            0 <= i < m.entities@.len() ==> m.entities@[i].kind != EntityKind::Url,
    ensures
        extraction_spec(m) == Seq::<Seq<char>>::empty(),
{
    lemma_url_texts_no_urls(m.entities@);
}

proof fn lemma_url_texts_no_urls(ents: Seq<Entity>)
    requires
        forall|i: int| 0 <= i < ents.len() ==> ents[i].kind != EntityKind::Url,
    ensures
        url_texts(ents) == Seq::<Seq<char>>::empty(),
    decreases ents.len(),
{
    if ents.len() > 0 {
        lemma_url_texts_no_urls(ents.drop_last());
    }
}

/// A message whose text contains the opt-out marker extracts to the empty
/// sequence, whatever annotations it carries.
pub proof fn lemma_opt_out_extracts_nothing(m: MessageModel)
    requires
        opted_out(m),
    ensures
        extraction_spec(m) == Seq::<Seq<char>>::empty(),
{
}

/// Extraction keeps exactly the URL-kind annotations, in their original
/// order, each contributing its annotated text: `url_texts` is the
/// filter-by-kind of the annotation list followed by taking each annotation's
/// text.
pub proof fn lemma_url_texts_in_order(ents: Seq<Entity>)
    ensures
        url_texts(ents) == ents.filter(|e: Entity| e.kind == EntityKind::Url).map_values(
            |e: Entity| e.text@,
        ),
    decreases ents.len(),
{
    reveal_with_fuel(Seq::filter, 2);
    let pred = |e: Entity| e.kind == EntityKind::Url;
    let f = |e: Entity| e.text@;
    if ents.len() == 0 {
        assert(ents.filter(pred).map_values(f) =~= Seq::<Seq<char>>::empty());
    } else {
        lemma_url_texts_in_order(ents.drop_last());
        if pred(ents.last()) {
            ents.drop_last().filter(pred).lemma_push_map_commute(f, ents.last());
        }
    }
}

/// Extract the URL annotation texts from a message, in order; the empty
/// vector when the message opts out or carries no URL annotations.
pub fn extract_urls(m: &MessageModel) -> (r: Vec<String>)
    ensures
        r.deep_view() == extraction_spec(*m),
{
    match &m.text {
        Some(t) => {
            if contains_str(t.as_str(), "bot-ignore") {
                let r: Vec<String> = Vec::new();
                proof {
                    assert(r.deep_view() =~= Seq::<Seq<char>>::empty());
                }
                return r;
            }
        },
        None => {},
    }
    let mut r: Vec<String> = Vec::new();
    let n = m.entities.len();
    let mut i: usize = 0;
    proof {
        assert(r.deep_view() =~= url_texts(m.entities@.take(0)));
    }
    while i < n
        invariant
            n == m.entities@.len(),
            i <= n,
            r.deep_view() == url_texts(m.entities@.take(i as int)),
        decreases n - i,
    {
        let ghost prev = r.deep_view();
        let e = &m.entities[i];
        match e.kind {
            EntityKind::Url => {
                r.push(e.text.clone());
            },
            EntityKind::Other => {},
        }
        proof {
            assert(m.entities@.take(i + 1).drop_last() =~= m.entities@.take(i as int));
            assert(m.entities@.take(i + 1).last() == m.entities@[i as int]);
            if m.entities@[i as int].kind == EntityKind::Url {
                assert(r.deep_view() =~= prev.push(m.entities@[i as int].text@));
            }
        }
        i += 1;
    }
    proof {
        assert(m.entities@.take(n as int) =~= m.entities@);
    }
    r
}

} // verus!
