# amico

The core of the Amico AI agent framework as a Verus library: its logic is in
`src/`, with `requires`/`ensures` contracts that Verus proves.

- `agent_event`, `interaction`, `control`: the events an agent receives and
  their content.
- `storage`: namespaced key-value storage, in memory (`InMemStorage`) and as
  JSON files (`FsStorage`, `FsNamespace`: the cache, paths and listing
  decisions; the file I/O is in `app/files.rs`).
- `service`, `retry_service`: the decisions of the completion services' tool
  loops, as state machines; `app/service.rs` runs the loops.
- `action_selector`: the selector's prompts, and how an action is read out of
  the model's reply (`app/action_selection.rs` asks the service).
- `chat`: when a typed line ends a chat, what text goes to the model, and
  which failures end a voice chat (`app/chat_tasks.rs` runs the loops).
- `models`, `plugin`, `providers`, `wallet`, `web3`: model and plugin data,
  rig-core providers and the messages they are sent (`app/rig_completion.rs`
  makes the network calls), the BIP-39 wallet, and Solana sensor data.
- `json`: the `serde_json` calls the logic makes (parse, member, kind tests,
  text), each behind a named result.
- `keymap`: the insertion-ordered string-keyed map the stores are built on.

`app/` holds what Verus does not take: file system work, the asynchronous
model and plugin traits, the resource map keyed by runtime types, and the
inputs that hold floating-point values.
