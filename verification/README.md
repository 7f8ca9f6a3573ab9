# Duihua background worker

A worker that takes background jobs from a queue in a response store, has an
upstream answer them, and stores the answers. The rules of the worker are a
Verus library; what touches the outside world is ordinary Rust around it.

| Path | What it holds |
| --- | --- |
| `src/config.rs` | The environment: defaults, refusals, the recommended time to stop |
| `src/store.rs` | The store: where it is, what is asked of it, which failures are worth a retry |
| `src/claim.rs` | Claims, and the jobs that were not ready when they were claimed |
| `src/retry.rs` | The scheduler of messages that wait for another attempt |
| `src/attempts.rs` | How often a message is tried, and when it counts as taken over |
| `src/job.rs` | The life of one message, from permit to acknowledgement or retry |
| `src/run.rs` | The loops of the worker as machines of steps and events |
| `src/parallel.rs` | The main loop and the messages side by side, and how many of them run |
| `src/text.rs`, `src/arith.rs`, `src/time.rs`, `src/message.rs` | What these rest on |
| `app/` | Signals, clocks, tasks and the client of the store |

Each loop of the worker is a function from a step and an event to the next
step. `app/` performs the step, reports the event and asks for what follows.

## What is not proved

- `src/time.rs` trusts the clock of the standard library to give spans that a
  `Duration` can hold.
- `src/store.rs` trusts `tonic` to read an endpoint in the same way each time.

Everything else in `src/` is verified. That no more jobs run than are allowed
holds of any semaphore that gives a permit only while fewer than that are out;
the one in `app/` is `tokio`'s. That nothing runs once the worker has stopped
holds of any wait that ends only when every job has; that, too, is `tokio`'s.
