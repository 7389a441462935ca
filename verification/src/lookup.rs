//! Questions that only the outside world can answer.
//!
//! Resolving an argument may need a fact that lies outside the command
//! itself: the avatar of a mentioned user, the image of an emoji, the recent
//! messages of a channel, the body of a page, the bytes of a file. The
//! parsers never fetch anything. They look the fact up among the answers
//! that the caller has supplied so far, and where it is missing they fail
//! with the question. The caller answers it and parses again.

use crate::message::Message;
use vstd::prelude::*;

verus! {

/// A question for the caller.
#[derive(Debug, PartialEq, Eq)]
pub enum Lookup {
    /// The address of the avatar of the user with this id.
    UserAvatar(u64),
    /// The address of the image that the emoji descriptor at this address
    /// names.
    EmojiImage(String),
    /// The recent messages of the channel with this id, newest first.
    ChannelHistory(u64),
    /// The body of the page at this address.
    Page(String),
    /// The bytes at this address, refused beyond the given size.
    Content(String, u64),
}

/// A `Lookup` with its strings as sequences of characters.
pub enum LookupView {
    UserAvatar(u64),
    EmojiImage(Seq<char>),
    ChannelHistory(u64),
    Page(Seq<char>),
    Content(Seq<char>, u64),
}

impl View for Lookup {
    type V = LookupView;

    open spec fn view(&self) -> LookupView {
        match self {
            Lookup::UserAvatar(id) => LookupView::UserAvatar(*id),
            Lookup::EmojiImage(url) => LookupView::EmojiImage(url@),
            Lookup::ChannelHistory(id) => LookupView::ChannelHistory(*id),
            Lookup::Page(url) => LookupView::Page(url@),
            Lookup::Content(url, limit) => LookupView::Content(url@, *limit),
        }
    }
}

impl Clone for Lookup {
    fn clone(&self) -> (copy: Lookup)
        ensures
            copy == *self,
    {
        match self {
            Lookup::UserAvatar(id) => Lookup::UserAvatar(*id),
            Lookup::EmojiImage(url) => Lookup::EmojiImage(url.clone()),
            Lookup::ChannelHistory(id) => Lookup::ChannelHistory(*id),
            Lookup::Page(url) => Lookup::Page(url.clone()),
            Lookup::Content(url, limit) => Lookup::Content(url.clone(), *limit),
        }
    }
}

impl Lookup {
    /// Whether two questions ask the same thing.
    pub fn same(&self, other: &Lookup) -> (b: bool)
        ensures
            b == (self@ == other@),
    {
        match (self, other) {
            (Lookup::UserAvatar(a), Lookup::UserAvatar(b)) => *a == *b,
            (Lookup::EmojiImage(a), Lookup::EmojiImage(b)) => *a == *b,
            (Lookup::ChannelHistory(a), Lookup::ChannelHistory(b)) => *a == *b,
            (Lookup::Page(a), Lookup::Page(b)) => *a == *b,
            (Lookup::Content(a, m), Lookup::Content(b, n)) => *a == *b && *m == *n,
            _ => false,
        }
    }
}

/// What came back for a question: the fact, or the message of the failure,
/// with strings as sequences of characters.
pub open spec fn answer_view<V: View>(answer: Result<V, String>) -> Result<V::V, Seq<char>> {
    match answer {
        Ok(fact) => Ok(fact@),
        Err(message) => Err(message@),
    }
}

/// The answer that `entries` holds for `question` at or after position
/// `i`: the first one recorded for it, if any.
pub open spec fn answer_from<V: View>(
    entries: Seq<(Lookup, Result<V, String>)>,
    question: LookupView,
    i: int,
) -> Option<Result<V::V, Seq<char>>>
    decreases entries.len() - i,
{
    if 0 <= i < entries.len() {
        if entries[i].0@ == question {
            Some(answer_view(entries[i].1))
        } else {
            answer_from(entries, question, i + 1)
        }
    } else {
        None
    }
}

/// Appending an entry changes no answer that was there, and answers the new
/// question where it was open.
pub proof fn lemma_answer_push<V: View>(
    entries: Seq<(Lookup, Result<V, String>)>,
    entry: (Lookup, Result<V, String>),
    question: LookupView,
    i: int,
)
    requires
        0 <= i <= entries.len(),
    ensures
        answer_from(entries.push(entry), question, i) == (if answer_from(entries, question, i)
            .is_some() {
            answer_from(entries, question, i)
        } else if entry.0@ == question {
            Some(answer_view(entry.1))
        } else {
            None
        }),
    decreases entries.len() - i,
{
    if i < entries.len() {
        if entries[i].0@ != question {
            lemma_answer_push(entries, entry, question, i + 1);
        }
    } else {
        assert(answer_from(entries.push(entry), question, i + 1).is_none());
    }
}

/// The answers of one kind that the caller has supplied, in the order in
/// which they came. The first answer to a question stands.
pub struct Answers<V> {
    pub entries: Vec<(Lookup, Result<V, String>)>,
}

impl<V: View> Answers<V> {
    /// The answer to `question`, if one was supplied.
    pub open spec fn answer(&self, question: LookupView) -> Option<Result<V::V, Seq<char>>> {
        answer_from(self.entries@, question, 0)
    }

    /// Whether every question that `earlier` answers has the same answer
    /// here.
    pub open spec fn extends(&self, earlier: &Answers<V>) -> bool {
        forall|question: LookupView| #[trigger]
            earlier.answer(question).is_some() ==> self.answer(question) == earlier.answer(
                question,
            )
    }

    /// No answers.
    pub fn new() -> (answers: Answers<V>)
        ensures
            answers.entries@.len() == 0,
            forall|question: LookupView| answers.answer(question).is_none(),
    {
        Answers { entries: Vec::new() }
    }

    /// Records `answer` for `question`. Where the question was answered
    /// before, the earlier answer stands.
    pub fn record(&mut self, question: Lookup, answer: Result<V, String>)
        ensures
            forall|q: LookupView| #[trigger]
                final(self).answer(q) == (if old(self).answer(q).is_some() {
                    old(self).answer(q)
                } else if question@ == q {
                    Some(answer_view(answer))
                } else {
                    None
                }),
            final(self).extends(old(self)),
    {
        proof {
            assert forall|q: LookupView|
                answer_from(self.entries@.push((question, answer)), q, 0) == (if answer_from(
                    self.entries@,
                    q,
                    0,
                ).is_some() {
                    answer_from(self.entries@, q, 0)
                } else if question@ == q {
                    Some(answer_view(answer))
                } else {
                    None
                }) by {
                lemma_answer_push(self.entries@, (question, answer), q, 0);
            }
        }
        self.entries.push((question, answer));
    }

    /// The answer to `question`, if one was supplied.
    pub fn get(&self, question: &Lookup) -> (found: Option<&Result<V, String>>)
        ensures
            match found {
                Some(answer) => self.answer(question@) == Some(answer_view(*answer)),
                None => self.answer(question@).is_none(),
            },
    {
        let mut i: usize = 0;
        while i < self.entries.len()
            invariant
                i <= self.entries.len(),
                self.answer(question@) == answer_from(self.entries@, question@, i as int),
            decreases self.entries.len() - i,
        {
            if self.entries[i].0.same(question) {
                return Some(&self.entries[i].1);
            }
            i += 1;
        }
        None
    }
}

/// All that the caller has supplied so far.
pub struct Lookups {
    /// Answers that are text: the address of an avatar or of an emoji's
    /// image, the body of a page.
    pub text: Answers<String>,
    /// The recent messages of channels.
    pub history: Answers<Vec<Message>>,
    /// The bytes of files.
    pub content: Answers<Vec<u8>>,
}

impl Lookups {
    /// Whether every question that `earlier` answers has the same answer
    /// here.
    pub open spec fn extends(&self, earlier: &Lookups) -> bool {
        &&& self.text.extends(&earlier.text)
        &&& self.history.extends(&earlier.history)
        &&& self.content.extends(&earlier.content)
    }

    /// Whether `question` is answered.
    pub open spec fn holds(&self, question: LookupView) -> bool {
        match question {
            LookupView::UserAvatar(_) | LookupView::EmojiImage(_) | LookupView::Page(_) =>
                self.text.answer(question).is_some(),
            LookupView::ChannelHistory(_) => self.history.answer(question).is_some(),
            LookupView::Content(_, _) => self.content.answer(question).is_some(),
        }
    }

    /// Nothing supplied.
    pub fn new() -> (lookups: Lookups)
        ensures
            forall|question: LookupView| lookups.text.answer(question).is_none(),
            forall|question: LookupView| lookups.history.answer(question).is_none(),
            forall|question: LookupView| lookups.content.answer(question).is_none(),
    {
        Lookups { text: Answers::new(), history: Answers::new(), content: Answers::new() }
    }
}

} // verus!
