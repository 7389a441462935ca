//! The order in which the places of an image are tried, and the engine that
//! tries them.
//!
//! Each place is tried from the same position. The first that has an
//! address wins, and the parse goes on after what it read. A place that
//! fails with low severity is undone and the next is tried. A place that
//! fails with high severity is undone and ends the search with its failure.

use crate::arguments::parsed_view;
use crate::context::{
    InteractionCommandParseCtxt, InteractionCommandView, RawMessageParseCtxt, RawMessageView,
};
use crate::error::{ErrorSeverity, TagParseError, TagParseErrorView};
use crate::image::{
    attachment_spec, emoji_spec, mention_spec, sticker_spec, url_spec, Found, ImageUrl,
};
use crate::message::first_of;
use crate::sources::{
    attachment_option_spec, history_spec, on_next_text, on_next_word, reply_spec,
};
use vstd::prelude::*;

verus! {

/// A place in which an image is looked for when a command is given as
/// text.
#[derive(Clone, Copy, Debug, PartialEq, Eq, Structural)]
pub enum RawStrategy {
    Mention,
    Url,
    Attachment,
    Reply,
    Emoji,
    Sticker,
    ChannelHistory,
}

/// A place in which an image is looked for when a command is given as
/// structured options. The message that is replied to and stickers are not
/// among them: a structured invocation has no message around it.
#[derive(Clone, Copy, Debug, PartialEq, Eq, Structural)]
pub enum OptionStrategy {
    Attachment,
    Mention,
    Url,
    Emoji,
    ChannelHistory,
}

/// The outcome of a chain whose places, tried one by one from position
/// `start`, would yield `attempts`: that of the first place at or after `k`
/// which does not fail with low severity. A failure leaves the position at
/// `start`. Where every place fails with low severity, no image was found.
pub open spec fn chain_from(attempts: Seq<(Found, int)>, k: int, start: int) -> (Found, int)
    decreases attempts.len() - k,
{
    if 0 <= k < attempts.len() {
        match attempts[k].0 {
            Ok(_) => attempts[k],
            Err(e) => if e.is_high() {
                (Err(e), start)
            } else {
                chain_from(attempts, k + 1, start)
            },
        }
    } else {
        (Err(TagParseErrorView::NoImageFound), start)
    }
}

/// How many of the places at or after `k` the chain tries.
pub open spec fn chain_tried(attempts: Seq<(Found, int)>, k: int) -> int
    decreases attempts.len() - k,
{
    if 0 <= k < attempts.len() {
        match attempts[k].0 {
            Ok(_) => 1,
            Err(e) => if e.is_high() {
                1
            } else {
                1 + chain_tried(attempts, k + 1)
            },
        }
    } else {
        0
    }
}

/// What a place yields on a parse of text, and where it leaves the text.
pub open spec fn raw_attempt_spec(strategy: RawStrategy, ctxt: RawMessageView) -> (Found, int) {
    match strategy {
        RawStrategy::Mention => on_next_word(
            ctxt,
            |word: Seq<char>| mention_spec(ctxt.lookups, word),
        ),
        RawStrategy::Url => on_next_word(ctxt, |word: Seq<char>| url_spec(word)),
        RawStrategy::Attachment => (
            attachment_spec(first_of(ctxt.message.attachments@)),
            ctxt.position,
        ),
        RawStrategy::Reply => (reply_spec(ctxt.lookups, ctxt.reply), ctxt.position),
        RawStrategy::Emoji => on_next_word(ctxt, |word: Seq<char>| emoji_spec(ctxt.lookups, word)),
        RawStrategy::Sticker => (
            sticker_spec(first_of(ctxt.message.sticker_items@)),
            ctxt.position,
        ),
        RawStrategy::ChannelHistory => (
            history_spec(ctxt.lookups, ctxt.channel_id),
            ctxt.position,
        ),
    }
}

/// What a place yields on a parse of options, and where it leaves the
/// options.
pub open spec fn option_attempt_spec(strategy: OptionStrategy, ctxt: InteractionCommandView) -> (
    Found,
    int,
) {
    match strategy {
        OptionStrategy::Attachment => attachment_option_spec(ctxt),
        OptionStrategy::Mention => on_next_text(
            ctxt,
            "String (mention aregument)"@,
            |word: Seq<char>| mention_spec(ctxt.lookups, word),
        ),
        OptionStrategy::Url => on_next_text(
            ctxt,
            "String (url argument)"@,
            |word: Seq<char>| url_spec(word),
        ),
        OptionStrategy::Emoji => on_next_text(
            ctxt,
            "String (emoji argument)"@,
            |text: Seq<char>| emoji_spec(ctxt.lookups, text),
        ),
        OptionStrategy::ChannelHistory => (
            history_spec(ctxt.lookups, ctxt.channel_id),
            ctxt.position,
        ),
    }
}

/// What the places in `order` yield on a parse of text, each tried from the
/// position of `ctxt`.
pub open spec fn raw_attempts(order: Seq<RawStrategy>, ctxt: RawMessageView) -> Seq<(Found, int)> {
    Seq::new(order.len(), |i: int| raw_attempt_spec(order[i], ctxt))
}

/// What the places in `order` yield on a parse of options, each tried from
/// the position of `ctxt`.
pub open spec fn option_attempts(order: Seq<OptionStrategy>, ctxt: InteractionCommandView) -> Seq<
    (Found, int),
> {
    Seq::new(order.len(), |i: int| option_attempt_spec(order[i], ctxt))
}

/// The order of the places for a command given as text.
pub open spec fn raw_order_spec() -> Seq<RawStrategy> {
    seq![
        RawStrategy::Mention,
        RawStrategy::Url,
        RawStrategy::Attachment,
        RawStrategy::Reply,
        RawStrategy::Emoji,
        RawStrategy::Sticker,
        RawStrategy::ChannelHistory,
    ]
}

/// The order of the places for a command given as structured options.
pub open spec fn option_order_spec() -> Seq<OptionStrategy> {
    seq![
        OptionStrategy::Attachment,
        OptionStrategy::Mention,
        OptionStrategy::Url,
        OptionStrategy::Emoji,
        OptionStrategy::ChannelHistory,
    ]
}

/// The order of the places for a command given as text.
pub fn raw_order() -> (order: Vec<RawStrategy>)
    ensures
        order@ == raw_order_spec(),
{
    let order = vec![
        RawStrategy::Mention,
        RawStrategy::Url,
        RawStrategy::Attachment,
        RawStrategy::Reply,
        RawStrategy::Emoji,
        RawStrategy::Sticker,
        RawStrategy::ChannelHistory,
    ];
    order
}

/// The order of the places for a command given as structured options.
pub fn option_order() -> (order: Vec<OptionStrategy>)
    ensures
        order@ == option_order_spec(),
{
    let order = vec![
        OptionStrategy::Attachment,
        OptionStrategy::Mention,
        OptionStrategy::Url,
        OptionStrategy::Emoji,
        OptionStrategy::ChannelHistory,
    ];
    order
}

/// Tries one place on a parse of text.
pub fn attempt_raw(strategy: RawStrategy, ctxt: &mut RawMessageParseCtxt) -> (r: Result<
    ImageUrl,
    TagParseError,
>)
    ensures
        parsed_view(r) == raw_attempt_spec(strategy, old(ctxt)@).0,
        final(ctxt)@ == old(ctxt)@.at(raw_attempt_spec(strategy, old(ctxt)@).1),
{
    match strategy {
        RawStrategy::Mention => ImageUrl::from_mention_raw_message(ctxt),
        RawStrategy::Url => ImageUrl::from_url_argument_raw_message(ctxt),
        RawStrategy::Attachment => ImageUrl::from_attachment_raw_message(ctxt),
        RawStrategy::Reply => ImageUrl::from_reply(ctxt),
        RawStrategy::Emoji => ImageUrl::from_emoji_raw_message(ctxt),
        RawStrategy::Sticker => ImageUrl::from_sticker(ctxt),
        RawStrategy::ChannelHistory => ImageUrl::from_channel_history(
            ctxt.lookups(),
            ctxt.channel_id(),
        ),
    }
}

/// Tries one place on a parse of options.
pub fn attempt_option(strategy: OptionStrategy, ctxt: &mut InteractionCommandParseCtxt) -> (r:
    Result<ImageUrl, TagParseError>)
    ensures
        parsed_view(r) == option_attempt_spec(strategy, old(ctxt)@).0,
        final(ctxt)@ == old(ctxt)@.at(option_attempt_spec(strategy, old(ctxt)@).1),
{
    match strategy {
        OptionStrategy::Attachment => ImageUrl::from_attachment_interaction_command(ctxt),
        OptionStrategy::Mention => ImageUrl::from_mention_command_option(ctxt),
        OptionStrategy::Url => ImageUrl::from_url_argument_command_option(ctxt),
        OptionStrategy::Emoji => ImageUrl::from_emoji_command_option(ctxt),
        OptionStrategy::ChannelHistory => ImageUrl::from_channel_history(
            ctxt.lookups(),
            ctxt.channel_id(),
        ),
    }
}

/// Tries the places in `order` on a parse of text, and says how many were
/// tried.
pub fn run_raw_chain(order: &Vec<RawStrategy>, ctxt: &mut RawMessageParseCtxt) -> (r: (
    Result<ImageUrl, TagParseError>,
    usize,
))
    ensures
        (parsed_view(r.0), final(ctxt)@.position) == chain_from(
            raw_attempts(order@, old(ctxt)@),
            0,
            old(ctxt)@.position,
        ),
        final(ctxt)@ == old(ctxt)@.at(final(ctxt)@.position),
        r.1 == chain_tried(raw_attempts(order@, old(ctxt)@), 0),
{
    let ghost start = ctxt@;
    let ghost attempts = raw_attempts(order@, start);
    let mut k: usize = 0;
    while k < order.len()
        invariant
            k <= order.len(),
            start == old(ctxt)@,
            ctxt@ == start,
            attempts == raw_attempts(order@, start),
            chain_from(attempts, 0, start.position) == chain_from(
                attempts,
                k as int,
                start.position,
            ),
            chain_tried(attempts, 0) == k + chain_tried(attempts, k as int),
        decreases order.len() - k,
    {
        let checkpoint = ctxt.checkpoint();
        match attempt_raw(order[k], ctxt) {
            Ok(found) => {
                return (Ok(found), k + 1);
            },
            Err(err) => {
                ctxt.rewind(checkpoint);
                if err.get_severity() == ErrorSeverity::High {
                    return (Err(err), k + 1);
                }
            },
        }
        k += 1;
    }
    (Err(TagParseError::NoImageFound), k)
}

/// Tries the places in `order` on a parse of options, and says how many
/// were tried.
pub fn run_option_chain(order: &Vec<OptionStrategy>, ctxt: &mut InteractionCommandParseCtxt) -> (r:
    (Result<ImageUrl, TagParseError>, usize))
    ensures
        (parsed_view(r.0), final(ctxt)@.position) == chain_from(
            option_attempts(order@, old(ctxt)@),
            0,
            old(ctxt)@.position,
        ),
        final(ctxt)@ == old(ctxt)@.at(final(ctxt)@.position),
        r.1 == chain_tried(option_attempts(order@, old(ctxt)@), 0),
{
    let ghost start = ctxt@;
    let ghost attempts = option_attempts(order@, start);
    let mut k: usize = 0;
    while k < order.len()
        invariant
            k <= order.len(),
            start == old(ctxt)@,
            ctxt@ == start,
            attempts == option_attempts(order@, start),
            chain_from(attempts, 0, start.position) == chain_from(
                attempts,
                k as int,
                start.position,
            ),
            chain_tried(attempts, 0) == k + chain_tried(attempts, k as int),
        decreases order.len() - k,
    {
        let checkpoint = ctxt.checkpoint();
        match attempt_option(order[k], ctxt) {
            Ok(found) => {
                return (Ok(found), k + 1);
            },
            Err(err) => {
                ctxt.rewind(checkpoint);
                if err.get_severity() == ErrorSeverity::High {
                    return (Err(err), k + 1);
                }
            },
        }
        k += 1;
    }
    (Err(TagParseError::NoImageFound), k)
}

/// Whether an attempt ends a chain: it has an address, or it fails with
/// high severity.
pub open spec fn decides(attempt: (Found, int)) -> bool {
    match attempt.0 {
        Ok(_) => true,
        Err(e) => e.is_high(),
    }
}

/// The attempts before the first that decides are passed over.
pub proof fn lemma_chain_skips_low(attempts: Seq<(Found, int)>, j: int, k: int, start: int)
    requires
        0 <= j <= k <= attempts.len(),
        forall|i: int| j <= i < k ==> !decides(#[trigger] attempts[i]),
    ensures
        chain_from(attempts, j, start) == chain_from(attempts, k, start),
        chain_tried(attempts, j) == (k - j) + chain_tried(attempts, k),
    decreases k - j,
{
    if j < k {
        lemma_chain_skips_low(attempts, j + 1, k, start);
    }
}

/// First match wins. Where the place `k` is the first to have an address,
/// every place before it having failed with low severity, the chain ends
/// with that address and at the position at which that place left the
/// input. It tries `k + 1` places: none after `k`. So the outcome is the
/// same whatever places follow.
pub proof fn lemma_chain_first_match(
    attempts: Seq<(Found, int)>,
    k: int,
    start: int,
    others: Seq<(Found, int)>,
)
    requires
        0 <= k < attempts.len(),
        attempts[k].0.is_ok(),
        forall|i: int| 0 <= i < k ==> !decides(#[trigger] attempts[i]),
    ensures
        chain_from(attempts, 0, start) == attempts[k],
        chain_tried(attempts, 0) == k + 1,
        chain_from(attempts.take(k + 1) + others, 0, start) == attempts[k],
        chain_tried(attempts.take(k + 1) + others, 0) == k + 1,
{
    lemma_chain_skips_low(attempts, 0, k, start);
    let replaced = attempts.take(k + 1) + others;
    assert forall|i: int| 0 <= i <= k implies #[trigger] replaced[i] == attempts[i] by {}
    assert forall|i: int| 0 <= i < k implies !decides(#[trigger] replaced[i]) by {}
    lemma_chain_skips_low(replaced, 0, k, start);
}

/// A failure of high severity ends the chain. Where the place `k` is the
/// first to fail so, every place before it having failed with low severity,
/// the chain ends with that failure and at the position at which it
/// started. It tries `k + 1` places: none after `k`. So the outcome is the
/// same whatever places follow.
pub proof fn lemma_chain_high_failure_ends(
    attempts: Seq<(Found, int)>,
    k: int,
    start: int,
    others: Seq<(Found, int)>,
)
    requires
        0 <= k < attempts.len(),
        attempts[k].0 matches Err(e) && e.is_high(),
        forall|i: int| 0 <= i < k ==> !decides(#[trigger] attempts[i]),
    ensures
        chain_from(attempts, 0, start) == (attempts[k].0, start),
        chain_tried(attempts, 0) == k + 1,
        chain_from(attempts.take(k + 1) + others, 0, start) == (attempts[k].0, start),
        chain_tried(attempts.take(k + 1) + others, 0) == k + 1,
{
    lemma_chain_skips_low(attempts, 0, k, start);
    let replaced = attempts.take(k + 1) + others;
    assert forall|i: int| 0 <= i <= k implies #[trigger] replaced[i] == attempts[i] by {}
    assert forall|i: int| 0 <= i < k implies !decides(#[trigger] replaced[i]) by {}
    lemma_chain_skips_low(replaced, 0, k, start);
}

/// Where every place fails with low severity, the chain tries them all,
/// ends with `NoImageFound` and leaves the position at `start`.
pub proof fn lemma_chain_exhausted(attempts: Seq<(Found, int)>, start: int)
    requires
        forall|i: int| 0 <= i < attempts.len() ==> !decides(#[trigger] attempts[i]),
    ensures
        chain_from(attempts, 0, start) == (
            Err::<Seq<char>, TagParseErrorView>(TagParseErrorView::NoImageFound),
            start,
        ),
        chain_tried(attempts, 0) == attempts.len(),
{
    lemma_chain_skips_low(attempts, 0, attempts.len() as int, start);
}

} // verus!
