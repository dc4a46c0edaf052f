# telecontrol

A Telegram bot that posts to a personal website: gallery items (a photo with
its description and an optional tweet) and translations of update posts,
written with the help of a vision/language model of the user's choice.

The library (`src/`) holds the bot's logic, verified with Verus:

- `bot`, `dialog`, `gallery_flow`, `translation_flow`: which handler an update
  goes to, and each conversation as steps from the current state and what the
  user sent to the next state and the replies;
- `gallery`, `image`, `upload`: turning collected messages into a post,
  picking the photo size, naming and uploading images;
- `translation`, `assistant`: the prompts and chats sent to the model, model
  routing, and how answers become translations;
- `kvstore`, `privkey`: the encrypted per-user settings store and its key;
- `user`, `locale`, `models`, `state`, `cli`, `command`, `registry`, `poll`,
  `text`: settings, locales, API records, dialogue states, and helpers.

The program (`app/`) does the input and output: Telegram, the website's API,
the model service, files, and the command line. It hands the library plain
values and performs the replies and calls the library's steps ask for.

The prompt files `prompt/alt_text.md` and `prompt/prompt_boundary.md` are read
at start-up from the working directory.

## Design notes

- The image cache and the poll contexts are keyed by strings (file ids and
  poll ids). They are held in `registry::Registry`, a small map over a `Vec`
  whose contents are a `Map<Seq<char>, V>`: Verus proves what `insert`,
  `get` and `remove` do to it. vstd's specification of a `HashMap` proves
  nothing useful for `String` keys, so a hash map would leave those
  operations unverified; the lists involved are short.
- Model requests are built in the library (`translation::title_summary_messages`,
  `translation::header_messages`, `assistant::caption_request_for_file` and
  `assistant::caption_request_for_url`, which puts a local image's bytes in
  Base64); `app/` only turns them into genai's types.
- `takecell` is pinned to 0.1.1 in `Cargo.toml` although nothing here uses it
  directly: teloxide depends on it, and its newer release needs a newer Rust
  than the toolchain this crate is verified with.
- `kvstore::KVStore` describes each store through spec functions (`read_of`,
  `written`, `removal_of`, `presence_read`), which the methods' contracts
  use. The encrypted store describes itself through the store below it, so
  its contracts say which user's entry below is read or written and what is
  made of it; `aes::lemma_read_gives_back_written` proves that a read gives
  back what was written whenever the store below gives back its bytes. Since
  every store has to describe its own `contains`, the method has no default
  body; the LMDB store answers it with `presence` of a read.
