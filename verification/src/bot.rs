//! Which handler an update goes to, and the decisions that the handlers make
//! between sending messages.

use vstd::prelude::*;
use vstd::string::StringExecFns;

use crate::command::Command;
use crate::gallery::{spec_gallery_error_text, GalleryError};
use crate::locale::{spec_all_locales, spec_language_name, spec_locale_named, AllCases, LocaleLanguageName, SupportedLocale};
use crate::models::{UpdatePost, UpdatePutRequest};
use crate::state::GlobalState;
use crate::text::{owned, spec_split_once, split_once, starts_with, is_prefix, str_eq, usize_to_decimal, decimal_digits};

verus! {

/// The kind of an incoming update.
#[derive(Clone, Copy, Debug, PartialEq, Eq, Structural)]
pub enum UpdateKind {
    Message,
    CallbackQuery,
    Poll,
}

/// The handlers of the bot.
#[derive(Clone, Copy, Debug, PartialEq, Eq, Structural)]
pub enum Handler {
    UpdateKey,
    UpdateApiEndpoint,
    PostCommand,
    SetKeyCommand,
    SetApiCommand,
    SetVisionModelCommand,
    TranslateCommand,
    HelpCommand,
    PrepareGalleryPost,
    UpdateVisionModel,
    PostCallback,
    TranslateCallback,
    PrepareUpdateTranslationCallback,
    PrepareGalleryPostCallback,
    ReviewGalleryPostCallback,
    ReviewUpdateTranslationCallback,
    UpdateTranslationLanguageSelectPoll,
}

/// The handler of a command sent while idle.
pub open spec fn spec_command_handler(c: Command) -> Handler {
    match c {
        Command::Post => Handler::PostCommand,
        Command::SetKey => Handler::SetKeyCommand,
        Command::SetApi => Handler::SetApiCommand,
        Command::SetVisionModel => Handler::SetVisionModelCommand,
        Command::Translate => Handler::TranslateCommand,
        Command::Help => Handler::HelpCommand,
    }
}

/// The handler an update goes to, given the user's state and, for a message,
/// the command it holds; `None` when no handler takes it.
pub open spec fn spec_route(kind: UpdateKind, state: GlobalState, command: Option<Command>) -> Option<Handler> {
    match kind {
        UpdateKind::Message => match state {
            GlobalState::UpdatingKey => Some(Handler::UpdateKey),
            GlobalState::UpdatingApiEndpoint => Some(Handler::UpdateApiEndpoint),
            GlobalState::Idle => match command {
                Some(c) => Some(spec_command_handler(c)),
                None => None,
            },
            GlobalState::PreparingGalleryPost => Some(Handler::PrepareGalleryPost),
            GlobalState::UpdatingVisionModel => Some(Handler::UpdateVisionModel),
            _ => None,
        },
        UpdateKind::CallbackQuery => match state {
            GlobalState::PostRequestd => Some(Handler::PostCallback),
            GlobalState::TranslationRequested => Some(Handler::TranslateCallback),
            GlobalState::PreparingUpdateTranslation => Some(Handler::PrepareUpdateTranslationCallback),
            GlobalState::PreparingGalleryPost => Some(Handler::PrepareGalleryPostCallback),
            GlobalState::ReviewingGalleryPost => Some(Handler::ReviewGalleryPostCallback),
            GlobalState::ReviewingUpdateTranslation => Some(Handler::ReviewUpdateTranslationCallback),
            _ => None,
        },
        UpdateKind::Poll => match state {
            GlobalState::PreparingUpdateTranslation => Some(Handler::UpdateTranslationLanguageSelectPoll),
            _ => None,
        },
    }
}

/// Picks the handler of an update.
pub fn route(kind: UpdateKind, state: GlobalState, command: Option<Command>) -> (r: Option<Handler>)
    ensures
        r == spec_route(kind, state, command),
{
    match kind {
        UpdateKind::Message => match state {
            GlobalState::UpdatingKey => Some(Handler::UpdateKey),
            GlobalState::UpdatingApiEndpoint => Some(Handler::UpdateApiEndpoint),
            GlobalState::Idle => match command {
                Some(Command::Post) => Some(Handler::PostCommand),
                Some(Command::SetKey) => Some(Handler::SetKeyCommand),
                Some(Command::SetApi) => Some(Handler::SetApiCommand),
                Some(Command::SetVisionModel) => Some(Handler::SetVisionModelCommand),
                Some(Command::Translate) => Some(Handler::TranslateCommand),
                Some(Command::Help) => Some(Handler::HelpCommand),
                None => None,
            },
            GlobalState::PreparingGalleryPost => Some(Handler::PrepareGalleryPost),
            GlobalState::UpdatingVisionModel => Some(Handler::UpdateVisionModel),
            _ => None,
        },
        UpdateKind::CallbackQuery => match state {
            GlobalState::PostRequestd => Some(Handler::PostCallback),
            GlobalState::TranslationRequested => Some(Handler::TranslateCallback),
            GlobalState::PreparingUpdateTranslation => Some(Handler::PrepareUpdateTranslationCallback),
            GlobalState::PreparingGalleryPost => Some(Handler::PrepareGalleryPostCallback),
            GlobalState::ReviewingGalleryPost => Some(Handler::ReviewGalleryPostCallback),
            GlobalState::ReviewingUpdateTranslation => Some(Handler::ReviewUpdateTranslationCallback),
            _ => None,
        },
        UpdateKind::Poll => match state {
            GlobalState::PreparingUpdateTranslation => Some(Handler::UpdateTranslationLanguageSelectPoll),
            _ => None,
        },
    }
}

/// Every state of the conversation has a handler for some update, so no
/// user is left in a state that the bot ignores.
pub proof fn lemma_every_state_is_handled(state: GlobalState)
    ensures
        exists|kind: UpdateKind, command: Option<Command>| (#[trigger] spec_route(kind, state, command)) is Some,
{
    match state {
        GlobalState::Idle => assert(spec_route(UpdateKind::Message, state, Some(Command::Help)) is Some),
        GlobalState::UpdatingKey | GlobalState::UpdatingApiEndpoint | GlobalState::PreparingGalleryPost
        | GlobalState::UpdatingVisionModel => assert(spec_route(UpdateKind::Message, state, None) is Some),
        _ => assert(spec_route(UpdateKind::CallbackQuery, state, None) is Some),
    }
}

/// The command that a handler serves, for the handlers of commands.
pub open spec fn served_command(h: Handler) -> Option<Command> {
    match h {
        Handler::PostCommand => Some(Command::Post),
        Handler::SetKeyCommand => Some(Command::SetKey),
        Handler::SetApiCommand => Some(Command::SetApi),
        Handler::SetVisionModelCommand => Some(Command::SetVisionModel),
        Handler::TranslateCommand => Some(Command::Translate),
        Handler::HelpCommand => Some(Command::Help),
        _ => None,
    }
}

/// A command sent by an idle user goes to the handler that serves that
/// command, so different commands go to different handlers; and a handler
/// of a command is reached only by a message holding that command from an
/// idle user.
pub proof fn lemma_commands_reach_their_handlers()
    ensures
        forall|c: Command|
            #[trigger] spec_route(UpdateKind::Message, GlobalState::Idle, Some(c)) matches Some(h)
                && served_command(h) == Some(c),
        forall|c1: Command, c2: Command|
            #[trigger] spec_route(UpdateKind::Message, GlobalState::Idle, Some(c1))
                == #[trigger] spec_route(UpdateKind::Message, GlobalState::Idle, Some(c2)) ==> c1 == c2,
        forall|kind: UpdateKind, state: GlobalState, command: Option<Command>, h: Handler|
            #[trigger] spec_route(kind, state, command) == Some(h) && #[trigger] served_command(h) is Some
                ==> kind == UpdateKind::Message && state == GlobalState::Idle && command == served_command(h),
{
    assert forall|c1: Command, c2: Command|
        #[trigger] spec_route(UpdateKind::Message, GlobalState::Idle, Some(c1))
            == #[trigger] spec_route(UpdateKind::Message, GlobalState::Idle, Some(c2)) implies c1 == c2 by {
        assert(served_command(spec_route(UpdateKind::Message, GlobalState::Idle, Some(c1)).unwrap()) == Some(c1));
        assert(served_command(spec_route(UpdateKind::Message, GlobalState::Idle, Some(c2)).unwrap()) == Some(c2));
    }
}

/// The kind of update and the user's state in which a handler is reached.
pub open spec fn reached_in(h: Handler) -> (UpdateKind, GlobalState) {
    match h {
        Handler::UpdateKey => (UpdateKind::Message, GlobalState::UpdatingKey),
        Handler::UpdateApiEndpoint => (UpdateKind::Message, GlobalState::UpdatingApiEndpoint),
        Handler::PostCommand | Handler::SetKeyCommand | Handler::SetApiCommand | Handler::SetVisionModelCommand
        | Handler::TranslateCommand | Handler::HelpCommand => (UpdateKind::Message, GlobalState::Idle),
        Handler::PrepareGalleryPost => (UpdateKind::Message, GlobalState::PreparingGalleryPost),
        Handler::UpdateVisionModel => (UpdateKind::Message, GlobalState::UpdatingVisionModel),
        Handler::PostCallback => (UpdateKind::CallbackQuery, GlobalState::PostRequestd),
        Handler::TranslateCallback => (UpdateKind::CallbackQuery, GlobalState::TranslationRequested),
        Handler::PrepareUpdateTranslationCallback => (UpdateKind::CallbackQuery, GlobalState::PreparingUpdateTranslation),
        Handler::PrepareGalleryPostCallback => (UpdateKind::CallbackQuery, GlobalState::PreparingGalleryPost),
        Handler::ReviewGalleryPostCallback => (UpdateKind::CallbackQuery, GlobalState::ReviewingGalleryPost),
        Handler::ReviewUpdateTranslationCallback => (UpdateKind::CallbackQuery, GlobalState::ReviewingUpdateTranslation),
        Handler::UpdateTranslationLanguageSelectPoll => (UpdateKind::Poll, GlobalState::PreparingUpdateTranslation),
    }
}

/// An update reaches a handler only in the kind and state that the handler
/// is for, and every handler that does not serve a command takes every
/// update of its kind in its state, whatever command the update holds.
pub proof fn lemma_handlers_take_their_states()
    ensures
        forall|kind: UpdateKind, state: GlobalState, command: Option<Command>|
            #[trigger] spec_route(kind, state, command) is Some
                ==> reached_in(spec_route(kind, state, command).unwrap()) == (kind, state),
        forall|h: Handler, command: Option<Command>|
            served_command(h) is None ==> #[trigger] spec_route(reached_in(h).0, reached_in(h).1, command) == Some(h),
{
}

/// Whether `/post` may go on: the user has stored settings (the store
/// reported a value, and reading it did not give "none").
pub fn post_allowed(contains: bool, read_gave_none: bool) -> (r: bool)
    ensures
        r == (contains && !read_gave_none),
{
    contains && !read_gave_none
}

/// What can be posted.
#[derive(Clone, Copy, Debug, PartialEq, Eq, Structural)]
pub enum PostKind {
    Update,
    Gallery,
}

/// The name of a kind of post, as buttons show it and callbacks carry it.
pub open spec fn spec_post_kind_name(k: PostKind) -> Seq<char> {
    match k {
        PostKind::Update => "Update"@,
        PostKind::Gallery => "Gallery"@,
    }
}

/// The kind of post whose name is `name`, if any.
pub open spec fn spec_post_kind_named(name: Seq<char>) -> Option<PostKind> {
    if name == "Update"@ {
        Some(PostKind::Update)
    } else if name == "Gallery"@ {
        Some(PostKind::Gallery)
    } else {
        None
    }
}

impl PostKind {
    /// Every kind of post, in the order of the buttons.
    pub fn all() -> (r: Vec<PostKind>)
        ensures
            r@ == seq![PostKind::Update, PostKind::Gallery],
    {
        let mut v: Vec<PostKind> = Vec::new();
        v.push(PostKind::Update);
        v.push(PostKind::Gallery);
        v
    }

    /// The name of the kind.
    pub fn name(&self) -> (r: &'static str)
        ensures
            r@ == spec_post_kind_name(*self),
    {
        match self {
            PostKind::Update => "Update",
            PostKind::Gallery => "Gallery",
        }
    }

    /// The kind whose name is `name`, if any.
    pub fn from_name(name: &str) -> (r: Option<PostKind>)
        ensures
            r == spec_post_kind_named(name@),
    {
        if str_eq(name, "Update") {
            Some(PostKind::Update)
        } else if str_eq(name, "Gallery") {
            Some(PostKind::Gallery)
        } else {
            None
        }
    }
}

/// Reading a kind's name back gives the kind.
pub proof fn lemma_post_kind_name_round_trip(k: PostKind)
    ensures
        spec_post_kind_named(spec_post_kind_name(k)) == Some(k),
{
    reveal_strlit("Update");
    reveal_strlit("Gallery");
    assert("Update"@[0] != "Gallery"@[0]);
}

/// What a text sent while collecting a gallery post means.
#[derive(Clone, Copy, Debug, PartialEq, Eq, Structural)]
pub enum GalleryText {
    /// The collection is complete.
    Done,
    /// The post is given up.
    Cancel,
    /// The text is part of the post.
    Content,
}

/// Reads a text sent while collecting a gallery post.
pub fn classify_gallery_text(text: &str) -> (r: GalleryText)
    ensures
        r == if text@ == "Done"@ {
            GalleryText::Done
        } else if text@ == "Cancel"@ {
            GalleryText::Cancel
        } else {
            GalleryText::Content
        },
{
    if str_eq(text, "Done") {
        GalleryText::Done
    } else if str_eq(text, "Cancel") {
        GalleryText::Cancel
    } else {
        GalleryText::Content
    }
}

/// What a button pressed while reviewing a post means.
#[derive(Clone, Copy, Debug, PartialEq, Eq, Structural)]
pub enum Review {
    Good,
    Bad,
    Unknown,
}

/// Reads the data of a review button.
pub fn classify_review(data: &str) -> (r: Review)
    ensures
        r == if data@ == "Good"@ {
            Review::Good
        } else if data@ == "Bad"@ {
            Review::Bad
        } else {
            Review::Unknown
        },
{
    if str_eq(data, "Good") {
        Review::Good
    } else if str_eq(data, "Bad") {
        Review::Bad
    } else {
        Review::Unknown
    }
}

/// The posts that are offered for translation: those not in the trash, in
/// their order.
pub open spec fn spec_untrashed<M: Copy>(posts: Seq<UpdatePost<M>>) -> Seq<int>
    decreases posts.len(),
{
    if posts.len() == 0 {
        Seq::empty()
    } else if posts.last().trashed {
        spec_untrashed(posts.drop_last())
    } else {
        spec_untrashed(posts.drop_last()).push(posts.len() - 1)
    }
}

/// The positions of the posts that are offered for translation.
pub fn untrashed_posts<M: Copy>(posts: &Vec<UpdatePost<M>>) -> (r: Vec<usize>)
    ensures
        r@.map_values(|i: usize| i as int) == spec_untrashed(posts@),
{
    let mut r: Vec<usize> = Vec::new();
    let n = posts.len();
    let mut i: usize = 0;
    while i < n
        invariant
            n == posts@.len(),
            i <= n,
            r@.map_values(|k: usize| k as int) == spec_untrashed(posts@.take(i as int)),
        decreases n - i,
    {
        assert(posts@.take(i as int + 1).drop_last() =~= posts@.take(i as int));
        if !posts[i].trashed {
            let ghost before = r@;
            r.push(i);
            assert(r@.map_values(|k: usize| k as int) =~= before.map_values(|k: usize| k as int).push(i as int));
        }
        i = i + 1;
    }
    assert(posts@.take(n as int) =~= posts@);
    r
}

/// The languages offered in the poll: every other locale than the post's,
/// in the order of `all_cases`.
pub open spec fn spec_poll_options(post_locale: SupportedLocale) -> Seq<Seq<char>> {
    spec_names_except(spec_all_locales(), post_locale)
}

/// The language names of the locales in `s` other than `skip`, in order.
pub open spec fn spec_names_except(s: Seq<SupportedLocale>, skip: SupportedLocale) -> Seq<Seq<char>>
    decreases s.len(),
{
    if s.len() == 0 {
        Seq::empty()
    } else if s.last() == skip {
        spec_names_except(s.drop_last(), skip)
    } else {
        spec_names_except(s.drop_last(), skip).push(spec_language_name(s.last()))
    }
}

/// The language names offered in the poll for a post written in `post_locale`.
pub fn poll_options(post_locale: SupportedLocale) -> (r: Vec<&'static str>)
    ensures
        r@.map_values(|s: &'static str| s@) == spec_poll_options(post_locale),
{
    let all = SupportedLocale::all_cases();
    let mut r: Vec<&'static str> = Vec::new();
    let n = all.len();
    let mut i: usize = 0;
    assert(r@.map_values(|s: &'static str| s@) =~= Seq::<Seq<char>>::empty());
    while i < n
        invariant
            n == all@.len(),
            all@ == spec_all_locales(),
            i <= n,
            r@.map_values(|s: &'static str| s@) == spec_names_except(all@.take(i as int), post_locale),
        decreases n - i,
    {
        let ghost before = r@;
        let l = all[i];
        assert(all@.take(i as int + 1).drop_last() =~= all@.take(i as int));
        assert(all@.take(i as int + 1).last() == l);
        if l != post_locale {
            r.push(l.typical_language_name());
            assert(r@.map_values(|s: &'static str| s@) =~= before.map_values(|s: &'static str| s@).push(spec_language_name(l)));
        }
        i = i + 1;
    }
    assert(all@.take(n as int) =~= all@);
    r
}

/// The question of the poll for a post written in `post_locale`.
pub open spec fn spec_poll_question(post_locale: SupportedLocale) -> Seq<char> {
    "This post is written in "@ + spec_language_name(post_locale)
        + ". Which language(s) would you like me to translate it to?"@
}

/// The question of the poll for a post written in `post_locale`.
pub fn poll_question(post_locale: SupportedLocale) -> (r: String)
    ensures
        r@ == spec_poll_question(post_locale),
{
    let mut r = owned("This post is written in ");
    r.append(post_locale.typical_language_name());
    r.append(". Which language(s) would you like me to translate it to?");
    r
}

/// A poll option as Telegram reports it.
#[derive(Debug)]
pub struct PollOption {
    pub text: String,
    pub voter_count: u32,
}

/// Every option that got a vote is a language name.
pub open spec fn voted_options_named(options: Seq<PollOption>) -> bool {
    forall|i: int| 0 <= i < options.len() && #[trigger] options[i].voter_count > 0
        ==> spec_locale_named(options[i].text@) is Some
}

/// Whether every option that got a vote is a language name.
pub fn voted_options_are_named(options: &Vec<PollOption>) -> (r: bool)
    ensures
        r == voted_options_named(options@),
{
    let n = options.len();
    let mut i: usize = 0;
    while i < n
        invariant
            n == options@.len(),
            i <= n,
            forall|j: int| 0 <= j < i && #[trigger] options@[j].voter_count > 0 ==> spec_locale_named(options@[j].text@) is Some,
        decreases n - i,
    {
        if options[i].voter_count > 0 && SupportedLocale::from_typical_language_name(options[i].text.as_str()).is_none() {
            assert(options@[i as int].voter_count > 0);
            return false;
        }
        i = i + 1;
    }
    true
}

/// The locales voted for, in the order of the options.
pub open spec fn spec_selected(options: Seq<PollOption>) -> Seq<SupportedLocale>
    decreases options.len(),
{
    if options.len() == 0 {
        Seq::empty()
    } else if options.last().voter_count <= 0 {
        spec_selected(options.drop_last())
    } else {
        spec_selected(options.drop_last()).push(spec_locale_named(options.last().text@)->0)
    }
}

/// The locales that got at least one vote. Only language names are offered,
/// so every voted option names a locale.
pub fn selected_languages(options: &Vec<PollOption>) -> (r: Vec<SupportedLocale>)
    requires
        voted_options_named(options@),
    ensures
        r@ == spec_selected(options@),
{
    let mut r: Vec<SupportedLocale> = Vec::new();
    let n = options.len();
    let mut i: usize = 0;
    while i < n
        invariant
            n == options@.len(),
            i <= n,
            voted_options_named(options@),
            r@ == spec_selected(options@.take(i as int)),
        decreases n - i,
    {
        assert(options@.take(i as int + 1).drop_last() =~= options@.take(i as int));
        assert(options@.take(i as int + 1).last() == options@[i as int]);
        let o = &options[i];
        if o.voter_count > 0 {
            match SupportedLocale::from_typical_language_name(o.text.as_str()) {
                Some(l) => r.push(l),
                None => {
                    assert(false);
                },
            }
        }
        i = i + 1;
    }
    assert(options@.take(n as int) =~= options@);
    r
}

/// The label of the button that posts the translations: "Post" when all
/// succeeded, else "Post" and the number of successes.
pub open spec fn spec_post_button_label(success_count: usize, failure_count: usize) -> Seq<char> {
    if failure_count == 0 {
        "Post"@
    } else {
        "Post "@ + decimal_digits(success_count as nat)
    }
}

/// The label of the button that posts the translations.
pub fn post_button_label(success_count: usize, failure_count: usize) -> (r: String)
    ensures
        r@ == spec_post_button_label(success_count, failure_count),
{
    if failure_count == 0 {
        owned("Post")
    } else {
        let mut r = owned("Post ");
        r.append(usize_to_decimal(success_count).as_str());
        r
    }
}

/// The closing line after failed translations; it starts with a note when
/// more than one failed.
pub fn failure_summary(failure_count: usize) -> (r: String)
    ensures
        r@ == if failure_count > 1 {
            "Several translations failed. "@ + "Tbh I have zero idea. You may refer to the console for details though"@
        } else {
            "Tbh I have zero idea. You may refer to the console for details though"@
        },
{
    if failure_count > 1 {
        let mut r = owned("Several translations failed. ");
        r.append("Tbh I have zero idea. You may refer to the console for details though");
        r
    } else {
        owned("Tbh I have zero idea. You may refer to the console for details though")
    }
}

/// What a button pressed while reviewing translations means.
#[derive(Debug)]
pub enum TranslationReview {
    Cancel,
    Post,
    /// Retry the translation into the locale whose code follows `Retry `.
    Retry(String),
    Unknown,
}

/// Reads the data of a button pressed while reviewing translations.
pub open spec fn spec_translation_review(data: Seq<char>) -> (Option<Seq<char>>, bool, bool) {
    // (the locale code of a retry, whether it is "Cancel", whether it is "Post")
    if data == "Cancel"@ {
        (None, true, false)
    } else if data == "Post"@ {
        (None, false, true)
    } else if is_prefix("Retry"@, data) {
        match spec_split_once(data, ' ') {
            Some((_, code)) => (Some(code), false, false),
            None => (None, false, false),
        }
    } else {
        (None, false, false)
    }
}

/// Reads the data of a button pressed while reviewing translations.
pub fn classify_translation_review(data: &str) -> (r: TranslationReview)
    ensures
        match r {
            TranslationReview::Cancel => spec_translation_review(data@).1,
            TranslationReview::Post => spec_translation_review(data@).2,
            TranslationReview::Retry(code) => spec_translation_review(data@).0 == Some(code@),
            TranslationReview::Unknown => spec_translation_review(data@) == (None::<Seq<char>>, false, false),
        },
{
    if str_eq(data, "Cancel") {
        TranslationReview::Cancel
    } else if str_eq(data, "Post") {
        TranslationReview::Post
    } else if starts_with(data, "Retry") {
        match split_once(data, ' ') {
            Some((_, code)) => TranslationReview::Retry(owned(code)),
            None => TranslationReview::Unknown,
        }
    } else {
        TranslationReview::Unknown
    }
}

/// The locale whose code (as the API writes it) is `code`: the first in
/// `codes`, which pairs each locale with its code.
pub open spec fn spec_locale_by_code(codes: Seq<(SupportedLocale, Seq<char>)>, code: Seq<char>) -> Option<SupportedLocale>
    decreases codes.len(),
{
    if codes.len() == 0 {
        None
    } else if codes[0].1 == code {
        Some(codes[0].0)
    } else {
        spec_locale_by_code(codes.drop_first(), code)
    }
}

/// Finds the locale whose code is `code`.
pub fn locale_by_code(codes: &Vec<(SupportedLocale, String)>, code: &str) -> (r: Option<SupportedLocale>)
    ensures
        r == spec_locale_by_code(codes@.map_values(|p: (SupportedLocale, String)| (p.0, p.1@)), code@),
{
    let ghost cs = codes@.map_values(|p: (SupportedLocale, String)| (p.0, p.1@));
    let n = codes.len();
    let mut i: usize = 0;
    assert(cs.skip(0) =~= cs);
    while i < n
        invariant
            n == codes@.len(),
            cs == codes@.map_values(|p: (SupportedLocale, String)| (p.0, p.1@)),
            i <= n,
            spec_locale_by_code(cs, code@) == spec_locale_by_code(cs.skip(i as int), code@),
        decreases n - i,
    {
        let ghost rest = cs.skip(i as int);
        assert(rest[0] == cs[i as int]);
        assert(rest.drop_first() =~= cs.skip(i as int + 1));
        if str_eq(codes[i].1.as_str(), code) {
            return Some(codes[i].0);
        }
        i = i + 1;
    }
    assert(cs.skip(n as int).len() == 0);
    None
}

/// The failed locales after a retry of `locale`: its first occurrence is
/// removed.
pub open spec fn spec_remove_first(failed: Seq<SupportedLocale>, locale: SupportedLocale) -> Seq<SupportedLocale>
    decreases failed.len(),
{
    if failed.len() == 0 {
        failed
    } else if failed[0] == locale {
        failed.drop_first()
    } else {
        seq![failed[0]] + spec_remove_first(failed.drop_first(), locale)
    }
}

/// Removes the first occurrence of `locale` from the failed locales.
pub fn remove_failed(failed: &mut Vec<SupportedLocale>, locale: SupportedLocale)
    ensures
        final(failed)@ == spec_remove_first(old(failed)@, locale),
{
    let n = failed.len();
    let mut i: usize = 0;
    while i < n
        invariant
            n == failed@.len(),
            failed@ == old(failed)@,
            i <= n,
            forall|j: int| 0 <= j < i ==> failed@[j] != locale,
        decreases n - i,
    {
        if failed[i] == locale {
            proof {
                lemma_remove_first_at(old(failed)@, locale, i as int);
            }
            failed.remove(i);
            return;
        }
        i = i + 1;
    }
    proof {
        lemma_remove_first_absent(old(failed)@, locale);
    }
}

proof fn lemma_remove_first_at(s: Seq<SupportedLocale>, l: SupportedLocale, i: int)
    requires
        0 <= i < s.len(),
        s[i] == l,
        forall|j: int| 0 <= j < i ==> s[j] != l,
    ensures
        spec_remove_first(s, l) == s.remove(i),
    decreases i,
{
    if i > 0 {
        lemma_remove_first_at(s.drop_first(), l, i - 1);
        assert(s.remove(i) =~= seq![s[0]] + s.drop_first().remove(i - 1));
    } else {
        assert(s.remove(0) =~= s.drop_first());
    }
}

proof fn lemma_remove_first_absent(s: Seq<SupportedLocale>, l: SupportedLocale)
    requires
        forall|j: int| 0 <= j < s.len() ==> s[j] != l,
    ensures
        spec_remove_first(s, l) == s,
    decreases s.len(),
{
    if s.len() > 0 {
        lemma_remove_first_absent(s.drop_first(), l);
        assert(seq![s[0]] + s.drop_first() =~= s);
    }
}

/// The text that shows a translated post for review.
pub open spec fn spec_translation_preview<M: Copy>(p: UpdatePutRequest<M>) -> Seq<char> {
    p.header@ + "\n"@ + p.title@ + "\n"@ + p.summary@
}

/// The text that shows a translated post for review: header, title and
/// summary, one per line.
pub fn translation_preview<M: Copy>(p: &UpdatePutRequest<M>) -> (r: String)
    ensures
        r@ == spec_translation_preview(*p),
{
    let mut r = p.header.clone();
    r.append("\n");
    r.append(p.title.as_str());
    r.append("\n");
    r.append(p.summary.as_str());
    r
}

/// The message that reports a failed retry: the first failure gets the
/// plain text, and every further one adds a dot to the message shown.
pub open spec fn spec_retry_failed_text(shown: Option<Seq<char>>) -> Seq<char> {
    match shown {
        Some(m) => if is_prefix(RETRY_FAILED@, m) {
            m + "."@
        } else {
            RETRY_FAILED@
        },
        None => RETRY_FAILED@,
    }
}

/// The text of a failed retry.
pub const RETRY_FAILED: &'static str = "Oops, translation failed again...";

/// The message that reports a failed retry, given the text of the message
/// that the button belongs to.
pub fn retry_failed_text(shown: Option<&str>) -> (r: String)
    ensures
        r@ == spec_retry_failed_text(match shown {
            Some(m) => Some(m@),
            None => None,
        }),
{
    match shown {
        Some(m) => {
            if starts_with(m, RETRY_FAILED) {
                let mut r = owned(m);
                r.append(".");
                r
            } else {
                owned(RETRY_FAILED)
            }
        },
        None => owned(RETRY_FAILED),
    }
}


/// The message that opens the review of a gallery post.
pub fn review_intro(alt_text: &str) -> (r: String)
    ensures
        r@ == "Let's review beforehand.\nYou have an image, whose alt text is:\n"@ + alt_text@,
{
    let mut r = owned("Let's review beforehand.\nYou have an image, whose alt text is:\n");
    r.append(alt_text);
    r
}

/// The message that shows the tweet of a gallery post under review.
pub fn review_tweet(tweet: &str) -> (r: String)
    ensures
        r@ == "You also tweeted about it:\n"@ + tweet@,
{
    let mut r = owned("You also tweeted about it:\n");
    r.append(tweet);
    r
}

/// The message that asks for a missing description: the vision model is
/// offered when the user has one set up.
pub fn missing_alt_text_prompt(has_vision_model: bool) -> (r: &'static str)
    ensures
        r@ == if has_vision_model {
            "This photo doesn't have a caption. Send me one, or use the VLM to generate!"@
        } else {
            "The photo doesn't have a caption. Send me one! Describe the content of the image in brief."@
        },
{
    if has_vision_model {
        "This photo doesn't have a caption. Send me one, or use the VLM to generate!"
    } else {
        "The photo doesn't have a caption. Send me one! Describe the content of the image in brief."
    }
}

/// The message that reports why the collected messages do not make a post.
pub fn gallery_error_message(e: &GalleryError) -> (r: String)
    ensures
        r@ == "From the dialog, we have "@ + spec_gallery_error_text(*e) + ". With that in mind, try again!"@,
{
    let mut r = owned("From the dialog, we have ");
    r.append(e.text().as_str());
    r.append(". With that in mind, try again!");
    r
}

/// The message that shows a generated caption.
pub fn generated_caption_message(caption: &str) -> (r: String)
    ensures
        r@ == "So the VLM came up with the following caption:\n"@ + caption@
            + "\n\nI have modified your request. Press the \"Done\" button if that seems appropriate."@,
{
    let mut r = owned("So the VLM came up with the following caption:\n");
    r.append(caption);
    r.append("\n\nI have modified your request. Press the \"Done\" button if that seems appropriate.");
    r
}

/// The message that reports a failed caption generation.
pub fn caption_failure_message(trouble: &str) -> (r: String)
    ensures
        r@ == "I had trouble "@ + trouble@ + ". You may refer to the console for more details."@,
{
    let mut r = owned("I had trouble ");
    r.append(trouble);
    r.append(". You may refer to the console for more details.");
    r
}

} // verus!
