# sapiens

A language model that uses tools to interact with the world, written in
Verus: the logic is proved against its contracts.

## Layout

- `src/` - the verified library
  - `context.rs` - the chat history, kept within the model's token budget
  - `models/` - roles, model responses, the supported models, the token
    counts of the GPT models served through the OpenAI API (and the prompt
    of the Vicuna models, whose tokens the Llama tokenizer counts outside
    this library), and the prompt of the Vertex AI chat model
  - `prompt.rs` - the prompts of a task, and the tools listed by name
  - `tools/` - tool descriptions, the extraction of invocations from the
    model's answers, the toolbox and its statistics, and a few tools
  - `chain/` - the agent of the first OODA chain, which turns the context
    into a chat history and stops at the first entry it cannot hold
  - `chains/` - the OODA agents, their schedulers, and the runtime that
    runs a task step by step
  - `bot.rs`, `runner.rs` - what the Discord bot shows and decides
  - `exp/` - the cereal-bowl scenario, the traces of runs and their analysis
  - `text.rs` - the string functions the rest is written with
- `tests/` - tests of the library
- `app/` - the command line program: it queries the OpenAI service, runs the
  tools, runs a request as the bot runs a job, and saves the trials of
  experiments

The library does no input or output: where a step needs the model or a tool,
it hands back what to send, and takes back what came.
