# myxine

The page model of a local web server whose pages are set and watched by other
programs, verified with Verus.

- `src/` is the library: what a page holds, what it tells the browsers viewing
  it and when, how it is rendered, and how a request to evaluate JavaScript in
  it ends. Every function there carries its contract.
  - `channel`: the broadcast channel to the browsers of a page
  - `wire`: server-sent events and the texts inside them
  - `content`: dynamic and static contents
  - `evaluate`: evaluation requests, their waits and their errors
  - `queries`: the requests that await an answer
  - `template`: the document around a dynamic page
  - `page`: the page itself
- `app/` wraps a page in locks and timers for an asynchronous server.
- `tests/` runs the library with the real outside crates.

What happens on the channel to the browsers of a page is stated over records: the
messages that were handed over, in order (`channel::handed`), how many receivers
each of them found (`channel::reported`), how many there were when they were
counted (`channel::counted`), and how many streams were opened
(`channel::opened`). Which browsers are still connected is never promised. Where
a decision depends on it, a function takes the number of connections as an
argument and is exact (`is_empty_with`, `await_result`, `reached`).

The channel buffers one message. A browser that is slow to read gets the newest
message and may lose the ones before it.
