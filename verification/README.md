# p4nimau_rust

A VK community bot that watches a conversation and reposts its pictures to the
community's wall, with admin commands to edit its canned answers.

- `src/` is the library, verified with Verus:
  - `text.rs`: character-level string operations (lexicographic order, substring
    search, Unicode white-space trimming, removal of every occurrence of a pattern),
    each proved against a spec over the strings' `Seq<char>` views;
  - `types.rs`: the VK API objects, the choice of a photo's largest size and of the
    file a story video is shown by;
  - `config.rs`: the tokens, the configuration and the canned-answer pools;
  - `commands.rs`: command names, roles and access, adding answers, reply texts;
  - `bot.rs`: events and which command a message calls;
  - `posting.rs`: what a repost uploads or attaches, when it is published and what it
    carries.
- `app/` is the program around it: the VK and HTTP clients, the long poll, the
  configuration file and `.env` tokens, JSON, and the `f32` chance rolls.
- `tests/` runs the library on concrete values.
