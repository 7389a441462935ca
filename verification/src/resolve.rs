//! Images as arguments: the chain of places, then the step from a page
//! around an animation to the animation itself, then the download.

use crate::arguments::{build_option, parsed_view, CommandOption, CommandOptionView, ParseArgument};
use crate::chain::{
    chain_from, option_attempts, option_order, option_order_spec, raw_attempts, raw_order,
    raw_order_spec, run_option_chain, run_raw_chain,
};
use crate::context::{
    InteractionCommandParseCtxt, InteractionCommandView, RawMessageParseCtxt, RawMessageView,
};
use crate::error::{OptionKind, TagParseError, TagParseErrorView};
use crate::image::{text_answer, text_answer_spec, Found, ImageUrl};
use crate::lookup::{Lookup, LookupView, Lookups};
use crate::pattern::{find_gif, find_gif_in, starts_with};
use crate::text::{chars_of, string_from};
use vstd::prelude::*;

verus! {

/// The size beyond which no file is taken as input, in bytes.
pub const ABSOLUTE_INPUT_FILE_SIZE_LIMIT_BYTES: u64 = 250_000_000;

/// Whether an address is that of a page around an animation rather than of
/// the animation.
pub open spec fn is_redirect(url: Seq<char>) -> bool {
    "https://tenor.com/view"@.is_prefix_of(url)
}

/// What a page around an animation yields: the first address of an
/// animation on it.
pub open spec fn extract_spec(page: Seq<char>) -> Found {
    match find_gif(page) {
        Some(url) => Ok(url),
        None => Err(TagParseErrorView::MediaDownloadFail),
    }
}

/// What is made of the address that the chain found. The address of a page
/// around an animation is replaced by the address of the animation, taken
/// from the body of the page; any other address stands.
pub open spec fn normalize_spec(lookups: Lookups, url: Seq<char>) -> Found {
    if is_redirect(url) {
        match text_answer_spec(lookups, LookupView::Page(url)) {
            Ok(page) => extract_spec(page),
            Err(e) => Err(e),
        }
    } else {
        Ok(url)
    }
}

/// What resolving an image yields: the outcome of the chain, and for an
/// address what `normalize_spec` makes of it. The position is that at which
/// the chain ends.
pub open spec fn resolved(lookups: Lookups, outcome: (Found, int)) -> (Found, int) {
    match outcome.0 {
        Ok(url) => (normalize_spec(lookups, url), outcome.1),
        Err(e) => (Err(e), outcome.1),
    }
}

impl ImageUrl {
    /// The first address of an animation in the body of a page.
    pub fn extract_gif(page: &str) -> (r: Result<ImageUrl, TagParseError>)
        ensures
            parsed_view(r) == extract_spec(page@),
    {
        let chars: Vec<char> = chars_of(page);
        match find_gif_in(&chars) {
            Some((from, to)) => Ok(ImageUrl(string_from(&chars, from, to))),
            None => Err(TagParseError::MediaDownloadFail),
        }
    }

    /// Replaces the address of a page around an animation by the address of
    /// the animation.
    pub fn normalize(lookups: &Lookups, url: ImageUrl) -> (r: Result<ImageUrl, TagParseError>)
        ensures
            parsed_view(r) == normalize_spec(*lookups, url.0@),
    {
        if starts_with(url.0.as_str(), "https://tenor.com/view") {
            let page: String = text_answer(lookups, Lookup::Page(url.0))?;
            ImageUrl::extract_gif(page.as_str())
        } else {
            Ok(url)
        }
    }

    /// Tries the places of a command given as text, in their order.
    pub fn combined_parsers_raw_message(ctxt: &mut RawMessageParseCtxt) -> (r: Result<
        ImageUrl,
        TagParseError,
    >)
        ensures
            (parsed_view(r), final(ctxt)@.position) == chain_from(
                raw_attempts(raw_order_spec(), old(ctxt)@),
                0,
                old(ctxt)@.position,
            ),
            final(ctxt)@ == old(ctxt)@.at(final(ctxt)@.position),
    {
        let order = raw_order();
        run_raw_chain(&order, ctxt).0
    }

    /// Tries the places of a command given as structured options, in their
    /// order.
    pub fn combined_parsers_command_option(ctxt: &mut InteractionCommandParseCtxt) -> (r: Result<
        ImageUrl,
        TagParseError,
    >)
        ensures
            (parsed_view(r), final(ctxt)@.position) == chain_from(
                option_attempts(option_order_spec(), old(ctxt)@),
                0,
                old(ctxt)@.position,
            ),
            final(ctxt)@ == old(ctxt)@.at(final(ctxt)@.position),
    {
        let order = option_order();
        run_option_chain(&order, ctxt).0
    }
}

impl ParseArgument for ImageUrl {
    open spec fn raw_message_spec(ctxt: RawMessageView) -> (Found, int) {
        resolved(
            ctxt.lookups,
            chain_from(raw_attempts(raw_order_spec(), ctxt), 0, ctxt.position),
        )
    }

    open spec fn command_option_spec(ctxt: InteractionCommandView) -> (Found, int) {
        resolved(
            ctxt.lookups,
            chain_from(option_attempts(option_order_spec(), ctxt), 0, ctxt.position),
        )
    }

    open spec fn option_spec(name: Seq<char>) -> CommandOptionView {
        CommandOptionView {
            name,
            description: "attachment input"@,
            kind: OptionKind::Attachment,
            required: true,
        }
    }

    fn parse_raw_message(ctxt: &mut RawMessageParseCtxt) -> (r: Result<ImageUrl, TagParseError>) {
        let url: ImageUrl = ImageUrl::combined_parsers_raw_message(ctxt)?;
        ImageUrl::normalize(ctxt.lookups(), url)
    }

    fn parse_command_option(ctxt: &mut InteractionCommandParseCtxt) -> (r: Result<
        ImageUrl,
        TagParseError,
    >) {
        let url: ImageUrl = ImageUrl::combined_parsers_command_option(ctxt)?;
        ImageUrl::normalize(ctxt.lookups(), url)
    }

    fn as_command_option(name: &str) -> (option: CommandOption) {
        build_option(name, "attachment input", OptionKind::Attachment, true)
    }
}

/// The bytes of an image.
#[derive(Clone, Debug, PartialEq, Eq)]
pub struct Image(pub Vec<u8>);

impl DeepView for Image {
    type V = Seq<u8>;

    open spec fn deep_view(&self) -> Seq<u8> {
        self.0@
    }
}

/// What the answers hold for the bytes at an address.
pub open spec fn content_answer_spec(lookups: Lookups, url: Seq<char>) -> Result<
    Seq<u8>,
    TagParseErrorView,
> {
    let question = LookupView::Content(url, ABSOLUTE_INPUT_FILE_SIZE_LIMIT_BYTES);
    match lookups.content.answer(question) {
        Some(Ok(bytes)) => Ok(bytes),
        Some(Err(message)) => Err(TagParseErrorView::Transport(message)),
        None => Err(TagParseErrorView::LookupRequired(question)),
    }
}

/// What downloading a resolved image yields.
pub open spec fn downloaded(lookups: Lookups, outcome: (Found, int)) -> (
    Result<Seq<u8>, TagParseErrorView>,
    int,
) {
    match outcome.0 {
        Ok(url) => (content_answer_spec(lookups, url), outcome.1),
        Err(e) => (Err(e), outcome.1),
    }
}

impl Image {
    /// The bytes at the address of an image.
    pub fn download(lookups: &Lookups, url: ImageUrl) -> (r: Result<Image, TagParseError>)
        ensures
            parsed_view(r) == content_answer_spec(*lookups, url.0@),
    {
        let question = Lookup::Content(url.0, ABSOLUTE_INPUT_FILE_SIZE_LIMIT_BYTES);
        match lookups.content.get(&question) {
            Some(Ok(bytes)) => {
                let mut data: Vec<u8> = Vec::new();
                let mut i: usize = 0;
                while i < bytes.len()
                    invariant
                        i <= bytes.len(),
                        data@ == bytes@.take(i as int),
                    decreases bytes.len() - i,
                {
                    data.push(bytes[i]);
                    i += 1;
                }
                assert(bytes@.take(bytes.len() as int) =~= bytes@);
                Ok(Image(data))
            },
            Some(Err(message)) => Err(TagParseError::Transport(message.clone())),
            None => Err(TagParseError::LookupRequired(question)),
        }
    }
}

impl ParseArgument for Image {
    open spec fn raw_message_spec(ctxt: RawMessageView) -> (
        Result<Seq<u8>, TagParseErrorView>,
        int,
    ) {
        downloaded(ctxt.lookups, ImageUrl::raw_message_spec(ctxt))
    }

    open spec fn command_option_spec(ctxt: InteractionCommandView) -> (
        Result<Seq<u8>, TagParseErrorView>,
        int,
    ) {
        downloaded(ctxt.lookups, ImageUrl::command_option_spec(ctxt))
    }

    open spec fn option_spec(name: Seq<char>) -> CommandOptionView {
        CommandOptionView {
            name,
            description: "attachment input"@,
            kind: OptionKind::Attachment,
            required: true,
        }
    }

    fn parse_raw_message(ctxt: &mut RawMessageParseCtxt) -> (r: Result<Image, TagParseError>) {
        let url: ImageUrl = ImageUrl::parse_raw_message(ctxt)?;
        Image::download(ctxt.lookups(), url)
    }

    fn parse_command_option(ctxt: &mut InteractionCommandParseCtxt) -> (r: Result<
        Image,
        TagParseError,
    >) {
        let url: ImageUrl = ImageUrl::parse_command_option(ctxt)?;
        Image::download(ctxt.lookups(), url)
    }

    fn as_command_option(name: &str) -> (option: CommandOption) {
        build_option(name, "attachment input", OptionKind::Attachment, true)
    }
}

} // verus!
