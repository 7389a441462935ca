//! Parsing again after a question was answered.
//!
//! A parse that ends with a question is run again once the caller has
//! answered it. The laws here say that this is sound for images, the one
//! kind of argument that asks questions: answers only ever add to what is
//! held, and a parse that ended without a question ends the same way
//! whatever is added. So the second run takes the path of the first up to
//! the question, finds it answered and goes on from there.

use crate::arguments::ParseArgument;
use crate::chain::{
    chain_from, chain_tried, option_attempt_spec, option_attempts, option_order_spec,
    raw_attempt_spec, raw_attempts, raw_order_spec, OptionStrategy, RawStrategy,
};
use crate::context::{InteractionCommandView, RawMessageView};
use crate::error::{is_open, TagParseErrorView};
use crate::image::{Found, ImageUrl};
use crate::lookup::{LookupView, Lookups};
use crate::resolve::Image;
use crate::sources::{history_spec, lemma_scan_finds_first};
use vstd::prelude::*;

verus! {

/// Whether `later` is the parse `ctxt` with more answers: the same input at
/// the same position, and every answer that `ctxt` holds.
pub open spec fn raw_message_with_more_answers(ctxt: RawMessageView, later: RawMessageView) -> bool {
    &&& later == (RawMessageView { lookups: later.lookups, ..ctxt })
    &&& later.lookups.extends(&ctxt.lookups)
}

/// Whether `later` is the parse `ctxt` with more answers.
pub open spec fn command_option_with_more_answers(
    ctxt: InteractionCommandView,
    later: InteractionCommandView,
) -> bool {
    &&& later == (InteractionCommandView { lookups: later.lookups, ..ctxt })
    &&& later.lookups.extends(&ctxt.lookups)
}

/// A place that did not end with a question yields the same with more
/// answers.
pub proof fn lemma_raw_attempt_settled(
    strategy: RawStrategy,
    ctxt: RawMessageView,
    later: RawMessageView,
)
    requires
        raw_message_with_more_answers(ctxt, later),
        !is_open(raw_attempt_spec(strategy, ctxt).0),
    ensures
        raw_attempt_spec(strategy, later) == raw_attempt_spec(strategy, ctxt),
{
}

/// A place that did not end with a question yields the same with more
/// answers.
pub proof fn lemma_option_attempt_settled(
    strategy: OptionStrategy,
    ctxt: InteractionCommandView,
    later: InteractionCommandView,
)
    requires
        command_option_with_more_answers(ctxt, later),
        !is_open(option_attempt_spec(strategy, ctxt).0),
    ensures
        option_attempt_spec(strategy, later) == option_attempt_spec(strategy, ctxt),
{
}

/// A chain that did not end with a question ends the same, after as many
/// places, when its places are tried again and each that had not ended with
/// a question yields what it did.
pub proof fn lemma_chain_settled(
    before: Seq<(Found, int)>,
    after: Seq<(Found, int)>,
    k: int,
    start: int,
)
    requires
        0 <= k,
        before.len() == after.len(),
        forall|i: int|
            0 <= i < before.len() && !is_open(before[i].0) ==> #[trigger] after[i] == before[i],
        !is_open(chain_from(before, k, start).0),
    ensures
        chain_from(after, k, start) == chain_from(before, k, start),
        chain_tried(after, k) == chain_tried(before, k),
    decreases before.len() - k,
{
    if k < before.len() {
        match before[k].0 {
            Ok(_) => {},
            Err(e) => {
                if !e.is_high() {
                    lemma_chain_settled(before, after, k + 1, start);
                }
            },
        }
    }
}

/// The address of an image that was resolved from text without a question
/// left open is resolved the same, to the same position, with more answers.
pub proof fn lemma_image_url_raw_message_settled(ctxt: RawMessageView, later: RawMessageView)
    requires
        raw_message_with_more_answers(ctxt, later),
        !is_open(ImageUrl::raw_message_spec(ctxt).0),
    ensures
        ImageUrl::raw_message_spec(later) == ImageUrl::raw_message_spec(ctxt),
{
    let before = raw_attempts(raw_order_spec(), ctxt);
    let after = raw_attempts(raw_order_spec(), later);
    assert forall|i: int| 0 <= i < before.len() && !is_open(before[i].0) implies #[trigger] after[i]
        == before[i] by {
        lemma_raw_attempt_settled(raw_order_spec()[i], ctxt, later);
    }
    lemma_chain_settled(before, after, 0, ctxt.position);
}

/// The same for structured options.
pub proof fn lemma_image_url_command_option_settled(
    ctxt: InteractionCommandView,
    later: InteractionCommandView,
)
    requires
        command_option_with_more_answers(ctxt, later),
        !is_open(ImageUrl::command_option_spec(ctxt).0),
    ensures
        ImageUrl::command_option_spec(later) == ImageUrl::command_option_spec(ctxt),
{
    let before = option_attempts(option_order_spec(), ctxt);
    let after = option_attempts(option_order_spec(), later);
    assert forall|i: int| 0 <= i < before.len() && !is_open(before[i].0) implies #[trigger] after[i]
        == before[i] by {
        lemma_option_attempt_settled(option_order_spec()[i], ctxt, later);
    }
    lemma_chain_settled(before, after, 0, ctxt.position);
}

/// An image that was parsed from text without a question left open is
/// parsed the same, to the same position, with more answers.
pub proof fn lemma_image_raw_message_settled(ctxt: RawMessageView, later: RawMessageView)
    requires
        raw_message_with_more_answers(ctxt, later),
        !is_open(Image::raw_message_spec(ctxt).0),
    ensures
        Image::raw_message_spec(later) == Image::raw_message_spec(ctxt),
{
    lemma_image_url_raw_message_settled(ctxt, later);
}

/// The same for structured options.
pub proof fn lemma_image_command_option_settled(
    ctxt: InteractionCommandView,
    later: InteractionCommandView,
)
    requires
        command_option_with_more_answers(ctxt, later),
        !is_open(Image::command_option_spec(ctxt).0),
    ensures
        Image::command_option_spec(later) == Image::command_option_spec(ctxt),
{
    lemma_image_url_command_option_settled(ctxt, later);
}

/// Whether a parse has ended with the question `question`.
pub open spec fn asks<V>(r: Result<V, TagParseErrorView>, question: LookupView) -> bool {
    r == Err::<V, TagParseErrorView>(TagParseErrorView::LookupRequired(question))
}

/// A chain that ends with a question has it from one of its places.
pub proof fn lemma_chain_asks(
    attempts: Seq<(Found, int)>,
    k: int,
    start: int,
    question: LookupView,
)
    requires
        0 <= k,
        asks(chain_from(attempts, k, start).0, question),
    ensures
        exists|i: int| k <= i < attempts.len() && asks(#[trigger] attempts[i].0, question),
    decreases attempts.len() - k,
{
    if k < attempts.len() && !asks(attempts[k].0, question) {
        lemma_chain_asks(attempts, k + 1, start, question);
    }
}

/// The history of a channel asks only for the messages of the channel, and
/// only while they are not held.
pub proof fn lemma_history_asks_open(lookups: Lookups, channel_id: u64, question: LookupView)
    ensures
        asks(history_spec(lookups, channel_id), question) ==> !lookups.holds(question),
{
    match lookups.history.answer(LookupView::ChannelHistory(channel_id)) {
        Some(Ok(messages)) => {
            lemma_scan_finds_first(messages, 0);
        },
        _ => {},
    }
}

/// A place asks only a question to which no answer is held.
pub proof fn lemma_raw_attempt_asks_open(
    strategy: RawStrategy,
    ctxt: RawMessageView,
    question: LookupView,
)
    requires
        asks(raw_attempt_spec(strategy, ctxt).0, question),
    ensures
        !ctxt.lookups.holds(question),
{
    lemma_history_asks_open(ctxt.lookups, ctxt.channel_id, question);
}

/// A place asks only a question to which no answer is held.
pub proof fn lemma_option_attempt_asks_open(
    strategy: OptionStrategy,
    ctxt: InteractionCommandView,
    question: LookupView,
)
    requires
        asks(option_attempt_spec(strategy, ctxt).0, question),
    ensures
        !ctxt.lookups.holds(question),
{
    lemma_history_asks_open(ctxt.lookups, ctxt.channel_id, question);
}

/// Only open questions are asked: where resolving the address of an image
/// from text ends with a question, no answer to it is held. So once the
/// question is answered, the parse does not end with it again.
pub proof fn lemma_image_url_raw_message_asks_open(ctxt: RawMessageView, question: LookupView)
    requires
        asks(ImageUrl::raw_message_spec(ctxt).0, question),
    ensures
        !ctxt.lookups.holds(question),
{
    let attempts = raw_attempts(raw_order_spec(), ctxt);
    if asks(chain_from(attempts, 0, ctxt.position).0, question) {
        lemma_chain_asks(attempts, 0, ctxt.position, question);
        let i = choose|i: int| 0 <= i < attempts.len() && asks(#[trigger] attempts[i].0, question);
        lemma_raw_attempt_asks_open(raw_order_spec()[i], ctxt, question);
    }
}

/// The same for structured options.
pub proof fn lemma_image_url_command_option_asks_open(
    ctxt: InteractionCommandView,
    question: LookupView,
)
    requires
        asks(ImageUrl::command_option_spec(ctxt).0, question),
    ensures
        !ctxt.lookups.holds(question),
{
    let attempts = option_attempts(option_order_spec(), ctxt);
    if asks(chain_from(attempts, 0, ctxt.position).0, question) {
        lemma_chain_asks(attempts, 0, ctxt.position, question);
        let i = choose|i: int| 0 <= i < attempts.len() && asks(#[trigger] attempts[i].0, question);
        lemma_option_attempt_asks_open(option_order_spec()[i], ctxt, question);
    }
}

/// Where parsing an image from text ends with a question, no answer to it
/// is held.
pub proof fn lemma_image_raw_message_asks_open(ctxt: RawMessageView, question: LookupView)
    requires
        asks(Image::raw_message_spec(ctxt).0, question),
    ensures
        !ctxt.lookups.holds(question),
{
    if asks(ImageUrl::raw_message_spec(ctxt).0, question) {
        lemma_image_url_raw_message_asks_open(ctxt, question);
    }
}

/// The same for structured options.
pub proof fn lemma_image_command_option_asks_open(
    ctxt: InteractionCommandView,
    question: LookupView,
)
    requires
        asks(Image::command_option_spec(ctxt).0, question),
    ensures
        !ctxt.lookups.holds(question),
{
    if asks(ImageUrl::command_option_spec(ctxt).0, question) {
        lemma_image_url_command_option_asks_open(ctxt, question);
    }
}

} // verus!
