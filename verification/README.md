# factories_actor

An actor framework whose decisions are verified. Actors, messages, handles and run
loops are assembled from parts that can be seen and replaced; the parts that decide
something are written in Verus and proved, the parts that wait, spawn and share are
plain Rust around them.

## Layout

- `src/message` - envelopes that carry messages of any type, the RTTI that tells
  which type it is, and answer channels.
- `src/actor` - what an actor is to others: dispatch, handles, protocol calls,
  lifecycle and shared state, supervision, handler contexts, event drivers.
- `src/runtime` - what an actor is made of: the dispatch registry, run loops, locks,
  priority routing, channels over `tokio` and `kanal`.
- `src/capture.rs` - the capture log: births, deaths and message edges with their
  causes.
- `app` - actors on tokio: the futures, tasks, locks and `tracing` events around the
  library.
- `tests` - what the library does on concrete values, with the real channels and
  wakers underneath.

## How asynchronous parts are modelled

What an `async` run loop or exchange decides is a state machine here: it takes the
event that was awaited and returns what is to be done next. `StandardRun`,
`SequentialRunLoop`, `ConcurrentRunLoop` and `ErasedAsk` are such machines. Whoever
drives one performs what it asks for and reports back. A turn of a run loop is one
call of `StandardDispatchContext::next_dispatch`: the event driver looks into the
mailbox, or does not, and what it yields is dispatched onto the context. Where there
is nothing yet, the turn is taken again later.

Acquiring a lock that others may hold gives what is to be awaited; acquiring one that
a mutable borrow keeps free gives the guard.

Messages of all types travel in one carrier type per channel. Which type a message
is of is told by its RTTI alone, so the type checks that guard every unwrapping are
checks on the RTTI.

## What is trusted

Calls into `tokio`, `kanal` and a few parts of `std` stand in small functions marked
`#[verifier::external_body]`. The comment on each says what is taken on trust.

What such a call comes to is often up to others: the other end of a channel, an
executor, a user's sink. Contracts then say which call was made with what, and what
was done with its result: that every waiter's waker was woken, that a sink was given
an event, that two channel ends were made by one call.
