# Taurus

Taurus is a local-first chat client: it talks to an Ollama server, and before
answering it lets the model research the web with two tools, a web search and
a page fetcher that only ever reads public pages.

The crate is in two parts.

- `src/` is the library, verified with Verus. It holds the research workflow
  as a state machine (`research.rs`, with the step texts and checks in
  `agent.rs`), the checks on chat requests (`chat.rs`), the chat types
  (`providers.rs`), the Ollama protocol logic, including the framing of
  streamed replies (`providers/ollama.rs`), the web tools (`tools/web.rs`:
  which URLs may be fetched, redirects, bounded bodies, readable page text and
  labeled links, search results, and the texts the model and the activity
  panel receive), the IP address rules (`tools/net.rs`), and text handling
  (`text.rs`). Its own functions have contracts that Verus proves. The calls
  into `url`, `scraper`, `serde_json`, `reqwest` and a few `std` functions go
  through small trusted functions (in `urls.rs`, `json.rs`, `http.rs`,
  `text.rs` and the HTML readers in `tools/web.rs`) whose contracts are
  assumed, not proved; the two that build HTTP clients promise nothing of
  their result, since building a client can fail for reasons outside its
  settings.
- `app/` is the rest: the network I/O, the JSON and XML forms of the
  library's types, the loop that runs the research workflow, the application
  state and the commands that the front end invokes.

`tests/` exercises the library on concrete values.
