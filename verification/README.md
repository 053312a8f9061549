# lila

A chatty Discord companion that talks through an OpenAI-compatible model.

- `src/` is the verified library: prompt templating (`interaction::prompts`), the choice
  of channel history and its ordering, the conversation with the model
  (`interaction`), tool-call decoding (`interaction::tools`), decimal and template text
  utilities (`text`), timestamps (`time`) and JSON access through serde_json (`json`).
- `app/` is the bot process: Discord and model I/O, conversions to the serenity and
  async-openai types, and the event loop.
- `tests/` exercises the library against the real outside crates.
