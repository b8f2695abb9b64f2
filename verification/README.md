# wftui

The decisions of a terminal forum client, verified with Verus.

`App` is plain data: a screen stack, a session, a pointer, a status line and a
list of effects. Each handler takes one thing that happened (a key, a click, a
paste, a reply, a tick of the clock), changes that data, and appends the work it
wants done to the list. The contract of a handler says exactly which state
follows from which, over the model `AppModel`.

## Layout

- `src/` is the verified library.
  - State: `app`, `screens`, `models`, `palette`, `keys`, `effects`, `msg`.
  - Input: `input`, `pointer`, `mirror`, `paste`, `goto`.
  - Places: `actions`, `openers`, `stack`, `nodes`, `url`.
  - Replies: `dispatch`, `arrivals`, `replies`, `writes`.
  - Session: `session`, `tasks`, `errors`, `update`.
  - Frames: `frame`.
  - Tools: `text`, `search`.
  - What holds of the whole: `laws`, `root`, `consent`.
- `tests/` runs the library.
- `app/` is the front end: terminal, clock, network tasks. It takes the effects
  off the list, performs them, and sends the answers back as messages.

## What is trusted

The contracts of `String::push`, `char::is_whitespace` and
`char::is_alphanumeric` in `text`, of ratatui's `Rect::contains` in `pointer`,
and of ratatui's `Rect::new` and vertical layout in `frame`. Each says in its comment what it
claims.
