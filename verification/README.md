# sync_oneshot

A minimal oneshot channel for synchronous Rust, verified with Verus.

`channel()` returns a `Sender` and a `Receiver`. `Sender::send` hands over one
value; `Receiver::recv` blocks until it arrives or the sender is gone;
`try_recv`, `recv_timeout` and `recv_deadline` do the same without blocking or
with a time limit; `close` refuses any later send.

## Layout

- `src/state.rs` — the state word (`WAITING`, `VALUE_SENT`, `CLOSED`), its
  transitions, and the laws that hold of every sequence of them: no flag is
  ever cleared, a send after a close is refused, a sent value survives a close,
  a receiver that announced it waits is seen by the sender, and after the
  sender's completion attempt the channel is never found empty again.
- `src/received.rs` — what a receiver makes of a state word and the slot's
  contents (`settled`), the answer each receiving method gives to that, and
  laws over this model: a stored value found after the sender's completion
  is answered as that value by every method's answer function, and a sender
  gone without a value, or a close before any send, is answered as an error.
  `Shared`/`Op`/`perform_all` model the word and the slot together:
  `lemma_send_protocol` shows that, whatever the receiver does around a send,
  an accepted send is found as exactly the stored value, and a refused one is
  taken back as exactly that value and leaves the channel reported closed.
  These laws are about the model; the methods' own contracts cannot name the
  word or the slot, which other threads change.
- `src/lib.rs` — `channel`, `Sender`, `Receiver` and their drops.
- `src/slot.rs` — the cell that carries the value (a mutex, only ever tried,
  never waited on: the state word keeps the two sides apart).
- `src/notify.rs` — waking a blocked receiver: it registers a wake-up channel
  before it announces that it waits, and the sender sends one wake-up through
  it when it completes and sees the announcement.
- `src/sync.rs` — the standard library's atomics, mutexes, wake-up channels and
  clock behind trusted items, each with what its documentation promises.

The state word is shared with another thread, so the verified code decides on
whatever word an atomic operation returns; the decisions themselves
(`State`, `Received`) have exact contracts.
