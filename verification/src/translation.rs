//! The prompts that ask a language model to translate an update post, and the
//! translated post that is made from its answers.

use aes_gcm_siv::aead::rand_core::RngCore;
use vstd::prelude::*;
use vstd::string::{StrSliceExecFns, StringExecFns};

use crate::locale::{spec_language_name, LocaleLanguageName, SupportedLocale};
use crate::models::{UpdatePost, UpdatePutRequest};

verus! {

/// The characters that prompt boundaries are made of; a random byte `b`
/// picks the character at `b % 64`.
pub const BOUNDARY_ALPHABET: &'static str = "abcdefghijklmnopqrstuvwxyzABCDEFGHIJKLMNOPQRSTUVWXYZ0123456789)_";

/// The number of characters in a prompt boundary.
pub const BOUNDARY_LEN: usize = 8;

/// The boundary that the bytes `bytes` pick.
pub open spec fn spec_boundary_of(bytes: Seq<u8>) -> Seq<char> {
    bytes.map_values(|b: u8| BOUNDARY_ALPHABET@[(b % 64) as int])
}

/// A prompt boundary: eight characters of the alphabet.
pub open spec fn is_boundary(s: Seq<char>) -> bool {
    exists|bytes: Seq<u8>| bytes.len() == BOUNDARY_LEN && s == #[trigger] spec_boundary_of(bytes)
}

/// Fills eight bytes from the operating system's random source
/// (`OsRng::fill_bytes`). Claims only the number of bytes.
#[verifier::external_body]
fn random_bytes() -> (r: Vec<u8>)
    ensures
        r@.len() == BOUNDARY_LEN,
{
    let mut key = [0u8; 8];
    aes_gcm_siv::aead::OsRng.fill_bytes(&mut key);
    key.to_vec()
}

/// The boundary that random bytes pick.
pub fn boundary_from_bytes(bytes: &[u8]) -> (r: String)
    ensures
        r@ == spec_boundary_of(bytes@),
{
    proof {
        reveal_strlit("abcdefghijklmnopqrstuvwxyzABCDEFGHIJKLMNOPQRSTUVWXYZ0123456789)_");
    }
    assert(BOUNDARY_ALPHABET@.len() == 64);
    let mut r = String::new();
    let n = bytes.len();
    let mut i: usize = 0;
    while i < n
        invariant
            n == bytes@.len(),
            i <= n,
            BOUNDARY_ALPHABET@.len() == 64,
            r@ == spec_boundary_of(bytes@.take(i as int)),
        decreases n - i,
    {
        let k: usize = (bytes[i] % 64) as usize;
        let c = BOUNDARY_ALPHABET.substring_char(k, k + 1);
        r.append(c);
        assert(spec_boundary_of(bytes@.take(i as int + 1)) =~= spec_boundary_of(bytes@.take(i as int)).push(
            BOUNDARY_ALPHABET@[k as int],
        ));
        assert(c@ =~= seq![BOUNDARY_ALPHABET@[k as int]]);
        i = i + 1;
    }
    assert(bytes@.take(n as int) =~= bytes@);
    r
}

/// A fresh random prompt boundary.
fn get_random_string() -> (r: String)
    ensures
        is_boundary(r@),
{
    let bytes = random_bytes();
    let r = boundary_from_bytes(bytes.as_slice());
    assert(bytes@.len() == BOUNDARY_LEN && r@ == spec_boundary_of(bytes@));
    r
}

pub const TS_INTRO: &'static str = "You are tasked with translating the following social media tweet from ";
pub const TO: &'static str = " to ";
pub const TS_WRAPPED: &'static str = ", wrapped in prompt boundary ";
pub const AND: &'static str = " and ";
pub const TS_TITLE_OPEN: &'static str = "\nOutput the translated data in XML. Do not include the prompt boundary wrapper.\n<tweet>\n<title>--prompt boundary ";
pub const NL: &'static str = "\n";
pub const BOUNDARY_LINE: &'static str = "\n--prompt boundary ";
pub const TS_SUMMARY_OPEN: &'static str = "--</title>\n<summary>--prompt boundary ";
pub const TS_CLOSE: &'static str = "--</summary>\n</tweet>";
pub const RESPONSE_OPEN: &'static str = "<tweet>\n<title>";
pub const RESPONSE_MIDDLE: &'static str = "</title>\n<summary>";
pub const RESPONSE_CLOSE: &'static str = "</summary>\n</tweet>";
pub const TEXT_INTRO: &'static str = "You are tasked with translating the following text from ";
pub const DIC_TEXT_OPEN: &'static str = ". Choose from this dictionary if possible.\n<text>\n--prompt boundary ";
pub const DIC_DICTIONARY_OPEN: &'static str = "--\n</text>\n\n<dictionary>\n--prompt boundary ";
pub const DIC_CLOSE: &'static str = "--\n</dictionary>\n\nIf there's no viable translation, use a custom one. Keep the translation short and clean. Either case, output in plain text. Do not include the prompt boundary wrapper nor XML tag.";
pub const DICTIONARY_SEPARATOR: &'static str = "\n\n";
pub const PLAIN_TEXT_OPEN: &'static str = ".\n---prompt boundary ";
pub const PLAIN_BOUNDARY_LINE: &'static str = "\n---prompt boundary ";
pub const PLAIN_CLOSE: &'static str = "---\n\nOutput in plain text. Do not include the prompt boundary.";

/// The request to translate a tweet's title and summary, wrapped in the
/// boundaries `b1` and `b2`.
pub open spec fn spec_title_summary_request(
    source: SupportedLocale,
    target: SupportedLocale,
    title: Seq<char>,
    summary: Seq<char>,
    b1: Seq<char>,
    b2: Seq<char>,
) -> Seq<char> {
    TS_INTRO@ + spec_language_name(source) + TO@ + spec_language_name(target) + TS_WRAPPED@ + b1 + AND@ + b2
        + TS_TITLE_OPEN@ + b1 + NL@ + title + BOUNDARY_LINE@ + b1 + TS_SUMMARY_OPEN@ + b2 + NL@ + summary
        + BOUNDARY_LINE@ + b2 + TS_CLOSE@
}

/// The answer that a title and summary make, in the form the request asks for.
pub open spec fn spec_title_summary_response(title: Seq<char>, summary: Seq<char>) -> Seq<char> {
    RESPONSE_OPEN@ + title + RESPONSE_MIDDLE@ + summary + RESPONSE_CLOSE@
}

/// The items of `list` joined by `sep`.
pub open spec fn spec_join(list: Seq<Seq<char>>, sep: Seq<char>) -> Seq<char>
    decreases list.len(),
{
    if list.len() == 0 {
        Seq::empty()
    } else if list.len() == 1 {
        list[0]
    } else {
        spec_join(list.drop_last(), sep) + sep + list.last()
    }
}

/// The views of a list of strings.
pub open spec fn views(list: Seq<String>) -> Seq<Seq<char>> {
    list.map_values(|s: String| s@)
}

/// The request to translate a header, with a dictionary of known
/// translations, wrapped in the boundaries `b1` and `b2`.
pub open spec fn spec_header_request_with_dic(
    source: SupportedLocale,
    target: SupportedLocale,
    header: Seq<char>,
    dictionary: Seq<Seq<char>>,
    b1: Seq<char>,
    b2: Seq<char>,
) -> Seq<char> {
    TEXT_INTRO@ + spec_language_name(source) + TO@ + spec_language_name(target) + DIC_TEXT_OPEN@ + b1 + NL@
        + header + BOUNDARY_LINE@ + b1 + DIC_DICTIONARY_OPEN@ + b2 + NL@ + spec_join(dictionary, DICTIONARY_SEPARATOR@)
        + BOUNDARY_LINE@ + b2 + DIC_CLOSE@
}

/// The request to translate a header, wrapped in the boundary `b1`.
pub open spec fn spec_header_request(
    source: SupportedLocale,
    target: SupportedLocale,
    header: Seq<char>,
    b1: Seq<char>,
) -> Seq<char> {
    TEXT_INTRO@ + spec_language_name(source) + TO@ + spec_language_name(target) + PLAIN_TEXT_OPEN@ + b1 + NL@
        + header + PLAIN_BOUNDARY_LINE@ + b1 + PLAIN_CLOSE@
}

/// Joins `list` with `sep` between the items.
pub fn join(list: &Vec<String>, sep: &str) -> (r: String)
    ensures
        r@ == spec_join(views(list@), sep@),
{
    let mut r = String::new();
    let n = list.len();
    let mut i: usize = 0;
    while i < n
        invariant
            n == list@.len(),
            i <= n,
            r@ == spec_join(views(list@).take(i as int), sep@),
        decreases n - i,
    {
        let ghost before = views(list@).take(i as int);
        let ghost after = views(list@).take(i as int + 1);
        assert(after.drop_last() =~= before);
        assert(after.last() == list@[i as int]@);
        if i > 0 {
            r.append(sep);
        } else {
            assert(after =~= seq![list@[0]@]);
        }
        r.append(list[i].as_str());
        i = i + 1;
    }
    assert(views(list@).take(n as int) =~= views(list@));
    r
}

/// Asks for the translation of a tweet's title and summary from `source` to
/// `target`, the texts wrapped in two fresh random boundaries.
pub fn translate_title_summary_request_template(
    source: SupportedLocale,
    target: SupportedLocale,
    title: &str,
    summary: &str,
) -> (r: String)
    ensures
        exists|b1: Seq<char>, b2: Seq<char>|
            is_boundary(b1) && is_boundary(b2) && r@ == spec_title_summary_request(source, target, title@, summary@, b1, b2),
{
    let b1 = get_random_string();
    let b2 = get_random_string();
    let mut r = String::from_str(TS_INTRO);
    r.append(source.typical_language_name());
    r.append(TO);
    r.append(target.typical_language_name());
    r.append(TS_WRAPPED);
    r.append(b1.as_str());
    r.append(AND);
    r.append(b2.as_str());
    r.append(TS_TITLE_OPEN);
    r.append(b1.as_str());
    r.append(NL);
    r.append(title);
    r.append(BOUNDARY_LINE);
    r.append(b1.as_str());
    r.append(TS_SUMMARY_OPEN);
    r.append(b2.as_str());
    r.append(NL);
    r.append(summary);
    r.append(BOUNDARY_LINE);
    r.append(b2.as_str());
    r.append(TS_CLOSE);
    assert(r@ == spec_title_summary_request(source, target, title@, summary@, b1@, b2@));
    r
}

/// The answer that a translated title and summary make, as the model is asked
/// to give it.
pub fn translate_title_summary_response(title: &str, summary: &str) -> (r: String)
    ensures
        r@ == spec_title_summary_response(title@, summary@),
{
    let mut r = String::from_str(RESPONSE_OPEN);
    r.append(title);
    r.append(RESPONSE_MIDDLE);
    r.append(summary);
    r.append(RESPONSE_CLOSE);
    r
}

/// Asks for the translation of a header from `source` to `target`, offering
/// the known translations in `dictionary`, with two fresh random boundaries.
pub fn translate_header_request_template_with_dic(
    source: SupportedLocale,
    target: SupportedLocale,
    header: &str,
    dictionary: &Vec<String>,
) -> (r: String)
    ensures
        exists|b1: Seq<char>, b2: Seq<char>|
            is_boundary(b1) && is_boundary(b2) && r@ == spec_header_request_with_dic(
                source,
                target,
                header@,
                views(dictionary@),
                b1,
                b2,
            ),
{
    let b1 = get_random_string();
    let b2 = get_random_string();
    let joined = join(dictionary, DICTIONARY_SEPARATOR);
    let mut r = String::from_str(TEXT_INTRO);
    r.append(source.typical_language_name());
    r.append(TO);
    r.append(target.typical_language_name());
    r.append(DIC_TEXT_OPEN);
    r.append(b1.as_str());
    r.append(NL);
    r.append(header);
    r.append(BOUNDARY_LINE);
    r.append(b1.as_str());
    r.append(DIC_DICTIONARY_OPEN);
    r.append(b2.as_str());
    r.append(NL);
    r.append(joined.as_str());
    r.append(BOUNDARY_LINE);
    r.append(b2.as_str());
    r.append(DIC_CLOSE);
    assert(r@ == spec_header_request_with_dic(source, target, header@, views(dictionary@), b1@, b2@));
    r
}

/// Asks for the translation of a header from `source` to `target`, with a
/// fresh random boundary.
pub fn translate_header_request_template(source: SupportedLocale, target: SupportedLocale, header: &str) -> (r: String)
    ensures
        exists|b1: Seq<char>| is_boundary(b1) && r@ == spec_header_request(source, target, header@, b1),
{
    let b1 = get_random_string();
    let mut r = String::from_str(TEXT_INTRO);
    r.append(source.typical_language_name());
    r.append(TO);
    r.append(target.typical_language_name());
    r.append(PLAIN_TEXT_OPEN);
    r.append(b1.as_str());
    r.append(NL);
    r.append(header);
    r.append(PLAIN_BOUNDARY_LINE);
    r.append(b1.as_str());
    r.append(PLAIN_CLOSE);
    assert(r@ == spec_header_request(source, target, header@, b1@));
    r
}

/// The answer that a translated header makes: the header itself.
pub fn translate_header_response(header: &str) -> (r: String)
    ensures
        r@ == header@,
{
    String::from_str(header)
}


/// Who speaks a turn of a chat with the model.
#[derive(Clone, Copy, Debug, PartialEq, Eq, Structural)]
pub enum Role {
    User,
    Assistant,
}

/// One turn of a chat with the model.
#[derive(Clone, Debug)]
pub struct ChatTurn {
    pub role: Role,
    pub text: String,
}

/// `text` asks for the translation of a title and summary, under some pair of
/// boundaries.
pub open spec fn is_title_summary_request(
    text: Seq<char>,
    source: SupportedLocale,
    target: SupportedLocale,
    title: Seq<char>,
    summary: Seq<char>,
) -> bool {
    exists|b1: Seq<char>, b2: Seq<char>|
        is_boundary(b1) && is_boundary(b2) && text == spec_title_summary_request(source, target, title, summary, b1, b2)
}

/// `text` asks for the translation of a header, under some boundary.
pub open spec fn is_header_request(text: Seq<char>, source: SupportedLocale, target: SupportedLocale, header: Seq<char>) -> bool {
    exists|b1: Seq<char>| is_boundary(b1) && text == spec_header_request(source, target, header, b1)
}

/// `text` asks for the translation of a header with a dictionary, under some
/// pair of boundaries.
pub open spec fn is_header_request_with_dic(
    text: Seq<char>,
    source: SupportedLocale,
    target: SupportedLocale,
    header: Seq<char>,
    dictionary: Seq<Seq<char>>,
) -> bool {
    exists|b1: Seq<char>, b2: Seq<char>|
        is_boundary(b1) && is_boundary(b2) && text == spec_header_request_with_dic(
            source,
            target,
            header,
            dictionary,
            b1,
            b2,
        )
}

/// The earlier translations shown to the model as examples.
pub open spec fn context_items<M: Copy>(context: Option<&Vec<UpdatePutRequest<M>>>) -> Seq<UpdatePutRequest<M>> {
    match context {
        Some(v) => v@,
        None => Seq::empty(),
    }
}

/// The chat that asks for the title and summary of `post` in `target`: for
/// each earlier translation, the request for it and its answer, then the
/// request for `target`.
pub open spec fn is_title_summary_chat<M: Copy>(
    chat: Seq<ChatTurn>,
    post: UpdatePost<M>,
    target: SupportedLocale,
    context: Seq<UpdatePutRequest<M>>,
) -> bool {
    &&& chat.len() == 2 * context.len() + 1
    &&& forall|j: int| 0 <= j < context.len() ==> {
        &&& (#[trigger] chat[2 * j]).role == Role::User
        &&& is_title_summary_request(chat[2 * j].text@, post.locale, context[j].locale, post.title@, post.summary@)
        &&& chat[2 * j + 1].role == Role::Assistant
        &&& chat[2 * j + 1].text@ == spec_title_summary_response(context[j].title@, context[j].summary@)
    }
    &&& chat.last().role == Role::User
    &&& is_title_summary_request(chat.last().text@, post.locale, target, post.title@, post.summary@)
}

/// The chat that asks for the header of `post` in `target`: for each earlier
/// translation, the request for its header and the header, then the request
/// for `target`, with the dictionary when there is one.
pub open spec fn is_header_chat<M: Copy>(
    chat: Seq<ChatTurn>,
    post: UpdatePost<M>,
    target: SupportedLocale,
    context: Seq<UpdatePutRequest<M>>,
    dictionary: Option<Seq<Seq<char>>>,
) -> bool {
    &&& chat.len() == 2 * context.len() + 1
    &&& forall|j: int| 0 <= j < context.len() ==> {
        &&& (#[trigger] chat[2 * j]).role == Role::User
        &&& is_header_request(chat[2 * j].text@, post.locale, context[j].locale, context[j].header@)
        &&& chat[2 * j + 1].role == Role::Assistant
        &&& chat[2 * j + 1].text@ == context[j].header@
    }
    &&& chat.last().role == Role::User
    &&& match dictionary {
        Some(d) => is_header_request_with_dic(chat.last().text@, post.locale, target, post.header@, d),
        None => is_header_request(chat.last().text@, post.locale, target, post.header@),
    }
}

/// The chat that asks for the title and summary of `post` in `target`.
pub fn title_summary_messages<M: Copy>(
    post: &UpdatePost<M>,
    target: SupportedLocale,
    context: Option<&Vec<UpdatePutRequest<M>>>,
) -> (r: Vec<ChatTurn>)
    ensures
        is_title_summary_chat(r@, *post, target, context_items(context)),
{
    let mut chat: Vec<ChatTurn> = Vec::new();
    match context {
        Some(items) => {
            let n = items.len();
            let mut i: usize = 0;
            while i < n
                invariant
                    n == items@.len(),
                    i <= n,
                    chat@.len() == 2 * i,
                    forall|j: int| 0 <= j < i ==> {
                        &&& (#[trigger] chat@[2 * j]).role == Role::User
                        &&& is_title_summary_request(chat@[2 * j].text@, post.locale, items@[j].locale, post.title@, post.summary@)
                        &&& chat@[2 * j + 1].role == Role::Assistant
                        &&& chat@[2 * j + 1].text@ == spec_title_summary_response(items@[j].title@, items@[j].summary@)
                    },
                decreases n - i,
            {
                let item = &items[i];
                let ask = translate_title_summary_request_template(post.locale, item.locale, post.title.as_str(), post.summary.as_str());
                let answer = translate_title_summary_response(item.title.as_str(), item.summary.as_str());
                chat.push(ChatTurn { role: Role::User, text: ask });
                chat.push(ChatTurn { role: Role::Assistant, text: answer });
                assert forall|j: int| 0 <= j < i + 1 implies {
                    &&& (#[trigger] chat@[2 * j]).role == Role::User
                    &&& is_title_summary_request(chat@[2 * j].text@, post.locale, items@[j].locale, post.title@, post.summary@)
                    &&& chat@[2 * j + 1].role == Role::Assistant
                    &&& chat@[2 * j + 1].text@ == spec_title_summary_response(items@[j].title@, items@[j].summary@)
                } by {}
                i = i + 1;
            }
        },
        None => {},
    }
    let ask = translate_title_summary_request_template(post.locale, target, post.title.as_str(), post.summary.as_str());
    chat.push(ChatTurn { role: Role::User, text: ask });
    chat
}

/// The chat that asks for the header of `post` in `target`.
pub fn header_messages<M: Copy>(
    post: &UpdatePost<M>,
    target: SupportedLocale,
    context: Option<&Vec<UpdatePutRequest<M>>>,
    dictionary: Option<&Vec<String>>,
) -> (r: Vec<ChatTurn>)
    ensures
        is_header_chat(
            r@,
            *post,
            target,
            context_items(context),
            match dictionary {
                Some(d) => Some(views(d@)),
                None => None,
            },
        ),
{
    let mut chat: Vec<ChatTurn> = Vec::new();
    match context {
        Some(items) => {
            let n = items.len();
            let mut i: usize = 0;
            while i < n
                invariant
                    n == items@.len(),
                    i <= n,
                    chat@.len() == 2 * i,
                    forall|j: int| 0 <= j < i ==> {
                        &&& (#[trigger] chat@[2 * j]).role == Role::User
                        &&& is_header_request(chat@[2 * j].text@, post.locale, items@[j].locale, items@[j].header@)
                        &&& chat@[2 * j + 1].role == Role::Assistant
                        &&& chat@[2 * j + 1].text@ == items@[j].header@
                    },
                decreases n - i,
            {
                let item = &items[i];
                let ask = translate_header_request_template(post.locale, item.locale, item.header.as_str());
                let answer = translate_header_response(item.header.as_str());
                chat.push(ChatTurn { role: Role::User, text: ask });
                chat.push(ChatTurn { role: Role::Assistant, text: answer });
                assert forall|j: int| 0 <= j < i + 1 implies {
                    &&& (#[trigger] chat@[2 * j]).role == Role::User
                    &&& is_header_request(chat@[2 * j].text@, post.locale, items@[j].locale, items@[j].header@)
                    &&& chat@[2 * j + 1].role == Role::Assistant
                    &&& chat@[2 * j + 1].text@ == items@[j].header@
                } by {}
                i = i + 1;
            }
        },
        None => {},
    }
    let ask = match dictionary {
        Some(d) => translate_header_request_template_with_dic(post.locale, target, post.header.as_str(), d),
        None => translate_header_request_template(post.locale, target, post.header.as_str()),
    };
    chat.push(ChatTurn { role: Role::User, text: ask });
    chat
}

/// Whether `post` has to be translated into `target`: a post is never
/// translated into its own locale.
pub fn needs_translation<M: Copy>(post: &UpdatePost<M>, target: SupportedLocale) -> (r: bool)
    ensures
        r == (target != post.locale),
{
    target != post.locale
}

/// The translated post: the answers for the header, title and summary, in the
/// target locale, with the cover of the original.
pub fn translated_post<M: Copy>(post: &UpdatePost<M>, target: SupportedLocale, header: String, title: String, summary: String) -> (r: UpdatePutRequest<M>)
    ensures
        r.locale == target,
        r.header@ == header@,
        r.title@ == title@,
        r.summary@ == summary@,
        r.cover == post.cover,
        r.mask == post.mask,
{
    UpdatePutRequest { locale: target, header, title, summary, cover: post.cover, mask: post.mask }
}


/// Why a translation failed.
#[derive(Clone, Debug)]
pub enum TranslationError {
    /// The model service refused or failed; the message says why.
    GenAI(String),
    /// The model's answer was not the XML asked for; the message says why.
    InvalidXml(String),
}

impl TranslationError {
    /// How the error reads.
    pub fn text(&self) -> (r: String)
        ensures
            r@ == match *self {
                TranslationError::GenAI(m) => m@,
                TranslationError::InvalidXml(m) => "XML parse error: "@ + m@,
            },
    {
        match self {
            TranslationError::GenAI(m) => m.clone(),
            TranslationError::InvalidXml(m) => {
                let mut r = String::from_str("XML parse error: ");
                r.append(m.as_str());
                r
            },
        }
    }
}

/// The result of asking for one translation.
#[derive(Clone, Debug)]
pub enum TranslationOutcome<M> {
    /// The translated post.
    Translated(UpdatePutRequest<M>),
    /// Nothing to translate: the target is the post's own locale.
    Skipped,
    Failed(TranslationError),
}

/// The translations that succeeded, in order: they are shown to the model as
/// examples for the next one, and they are what gets posted.
pub open spec fn spec_succeeded<M: Copy>(results: Seq<(SupportedLocale, TranslationOutcome<M>)>) -> Seq<int>
    decreases results.len(),
{
    if results.len() == 0 {
        Seq::empty()
    } else {
        let prev = spec_succeeded(results.drop_last());
        match results.last().1 {
            TranslationOutcome::Translated(_) => prev.push(results.len() - 1),
            _ => prev,
        }
    }
}

/// The locales whose translation failed, in order.
pub open spec fn spec_failed<M: Copy>(results: Seq<(SupportedLocale, TranslationOutcome<M>)>) -> Seq<SupportedLocale>
    decreases results.len(),
{
    if results.len() == 0 {
        Seq::empty()
    } else {
        let prev = spec_failed(results.drop_last());
        match results.last().1 {
            TranslationOutcome::Failed(_) => prev.push(results.last().0),
            _ => prev,
        }
    }
}

/// The translated post of a successful outcome.
pub open spec fn spec_translated<M: Copy>(o: TranslationOutcome<M>) -> UpdatePutRequest<M>
    recommends
        o is Translated,
{
    match o {
        TranslationOutcome::Translated(p) => p,
        _ => arbitrary(),
    }
}

/// Copies of the translations that succeeded, in order.
pub fn succeeded_translations<M: Copy>(results: &Vec<(SupportedLocale, TranslationOutcome<M>)>) -> (r: Vec<UpdatePutRequest<M>>)
    ensures
        r@.len() == spec_succeeded(results@).len(),
        forall|k: int| 0 <= k < r@.len() ==> {
            let p = spec_translated(results@[spec_succeeded(results@)[k]].1);
            &&& (#[trigger] r@[k]).locale == p.locale
            &&& r@[k].header@ == p.header@
            &&& r@[k].title@ == p.title@
            &&& r@[k].summary@ == p.summary@
            &&& r@[k].cover == p.cover
            &&& r@[k].mask == p.mask
        },
{
    let mut r: Vec<UpdatePutRequest<M>> = Vec::new();
    let n = results.len();
    let mut i: usize = 0;
    while i < n
        invariant
            n == results@.len(),
            i <= n,
            r@.len() == spec_succeeded(results@.take(i as int)).len(),
            forall|j: int| 0 <= j < spec_succeeded(results@.take(i as int)).len()
                ==> 0 <= #[trigger] spec_succeeded(results@.take(i as int))[j] < i,
            forall|k: int| 0 <= k < r@.len() ==> {
                let p = spec_translated(results@[spec_succeeded(results@.take(i as int))[k]].1);
                &&& (#[trigger] r@[k]).locale == p.locale
                &&& r@[k].header@ == p.header@
                &&& r@[k].title@ == p.title@
                &&& r@[k].summary@ == p.summary@
                &&& r@[k].cover == p.cover
                &&& r@[k].mask == p.mask
            },
        decreases n - i,
    {
        let ghost prev = spec_succeeded(results@.take(i as int));
        assert(results@.take(i as int + 1).drop_last() =~= results@.take(i as int));
        assert(results@.take(i as int + 1).last() == results@[i as int]);
        proof {
            assert forall|j: int| 0 <= j < prev.len() implies results@.take(i as int + 1)[prev[j]] == results@[prev[j]] by {}
        }
        match &results[i].1 {
            TranslationOutcome::Translated(p) => {
                r.push(p.duplicate());
            },
            _ => {},
        }
        i = i + 1;
    }
    assert(results@.take(n as int) =~= results@);
    r
}

/// The locales whose translation failed.
pub fn failed_locales<M: Copy>(results: &Vec<(SupportedLocale, TranslationOutcome<M>)>) -> (r: Vec<SupportedLocale>)
    ensures
        r@ == spec_failed(results@),
{
    let mut r: Vec<SupportedLocale> = Vec::new();
    let n = results.len();
    let mut i: usize = 0;
    while i < n
        invariant
            n == results@.len(),
            i <= n,
            r@ == spec_failed(results@.take(i as int)),
        decreases n - i,
    {
        assert(results@.take(i as int + 1).drop_last() =~= results@.take(i as int));
        assert(results@.take(i as int + 1).last() == results@[i as int]);
        match &results[i].1 {
            TranslationOutcome::Failed(_) => {
                r.push(results[i].0);
            },
            _ => {},
        }
        i = i + 1;
    }
    assert(results@.take(n as int) =~= results@);
    r
}

/// Why a translation failed, as the user is told.
pub open spec fn spec_failure_reason(e: TranslationError) -> Seq<char> {
    match e {
        TranslationError::GenAI(_) => "the VLM provider did not like the request I've sent them."@,
        TranslationError::InvalidXml(_) => "the language model failed to follow my instructions."@,
    }
}

/// The message that reports a failed translation into `locale`.
pub fn failure_message(locale: SupportedLocale, e: &TranslationError) -> (r: String)
    ensures
        r@ == "I could not translate to "@ + spec_language_name(locale) + ", cause' "@ + spec_failure_reason(*e),
{
    let mut r = String::from_str("I could not translate to ");
    r.append(locale.typical_language_name());
    r.append(", cause' ");
    match e {
        TranslationError::GenAI(_) => r.append("the VLM provider did not like the request I've sent them."),
        TranslationError::InvalidXml(_) => r.append("the language model failed to follow my instructions."),
    }
    r
}

/// The outcome of translating `post` into `target`, given the model's
/// answers: the title and summary, and the header; or the first failure
/// among the two requests.
pub fn translation_outcome<M: Copy>(
    post: &UpdatePost<M>,
    target: SupportedLocale,
    answers: Result<(String, String, String), TranslationError>,
) -> (r: TranslationOutcome<M>)
    ensures
        match answers {
            Ok((title, summary, header)) => r matches TranslationOutcome::Translated(p) && p.locale == target
                && p.header@ == header@ && p.title@ == title@ && p.summary@ == summary@ && p.cover == post.cover
                && p.mask == post.mask,
            Err(e) => r == TranslationOutcome::<M>::Failed(e),
        },
{
    match answers {
        Ok((title, summary, header)) => TranslationOutcome::Translated(translated_post(post, target, header, title, summary)),
        Err(e) => TranslationOutcome::Failed(e),
    }
}

} // verus!
