//! Deciding how a downloaded file is delivered back into the chat.
//!
//! In a non-private chat the video is captioned with the sender's name and
//! the original text, the caption carries a clickable link over the
//! sender-name span when a profile link is known, and the original message
//! is to be deleted after a successful upload. In a private chat the video
//! goes out bare and nothing is deleted.

use vstd::prelude::*;

verus! {

/// A clickable-text-link annotation over a span of the caption, measured in
/// characters of the caption.
#[derive(Clone, Debug)]
pub struct CaptionLink {
    pub url: String,
    pub offset: usize,
    pub length: usize,
}

/// How one downloaded file is delivered: the local path to upload, the
/// optional caption, the optional link annotation over the caption, and
/// whether the original message is deleted after a successful upload.
#[derive(Clone, Debug)]
pub struct DeliveryPlan {
    pub path: String,
    pub caption: Option<String>,
    pub link: Option<CaptionLink>,
    pub delete_original: bool,
}

/// The caption of an attributed delivery: the sender's name, a line break,
/// and the original message text.
pub open spec fn caption_spec(name: Seq<char>, text: Seq<char>) -> Seq<char> {
    name + "\n"@ + text
}

/// What a delivery plan must say for a file at `path`, a chat of the given
/// kind, a sender with the given name and optional profile link, and the
/// given original text. The link span is measured in characters of the
/// name, so it covers the name exactly even when the name holds multi-byte
/// characters.
pub open spec fn plan_ok(
    r: DeliveryPlan,
    is_private: bool,
    name: Seq<char>,
    text: Seq<char>,
    sender_url: Option<Seq<char>>,
    path: Seq<char>,
) -> bool {
    &&& r.path@ == path
    &&& r.delete_original == !is_private
    &&& if is_private {
        r.caption is None && r.link is None
    } else {
        &&& r.caption matches Some(c) && c@ == caption_spec(name, text)
        &&& match sender_url {
            None => r.link is None,
            Some(u) => {
                &&& r.link matches Some(l)
                &&& l.url@ == u
                &&& l.offset == 0
                &&& l.length == name.len()
            },
        }
    }
}

/// Decide the delivery of the file at `path`: attributed caption, link
/// annotation and origin-message deletion in a non-private chat, bare
/// delivery in a private one.
pub fn plan_delivery(
    is_private: bool,
    sender_name: &str,
    text: &str,
    sender_url: &Option<String>,
    path: String,
) -> (r: DeliveryPlan)
    ensures
        plan_ok(r, is_private, sender_name@, text@, sender_url.deep_view(), path@),
{
    if is_private {
        DeliveryPlan { path, caption: None, link: None, delete_original: false }
    } else {
        let mut caption = String::from_str(sender_name);
        caption.append("\n");
        caption.append(text);
        let link = match sender_url {
            Some(u) => Some(
                CaptionLink { url: u.clone(), offset: 0, length: sender_name.unicode_len() },
            ),
            None => None,
        };
        DeliveryPlan { path, caption: Some(caption), link, delete_original: true }
    }
}

} // verus!
