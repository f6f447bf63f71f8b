# Screen Time Monitor

A real-time dashboard for screen time usage across users and hosts. Screen time events arrive
as NATS JetStream messages on `time.obs.<host>.<user>`, are kept per host and user, and are
passed on to browsers over WebSockets. Requests may be authenticated by Cloudflare Access.

## Layout

- `src/` is the library, verified with Verus: the data and every decision.
  - `config`: the settings; environment variables come before the command line.
  - `event`: events, subjects and payloads.
  - `state`: the latest 1000 events of every `host:user`.
  - `subscriber`: what is done with a message, and the course of the subscription.
  - `websocket`: what a client is sent, and when its connection ends.
  - `auth`: anonymous, authenticated or refused: the treatment of a request.
  - `text`, `json`, `headers`, `jwt`: building blocks, and the trusted calls into `std`,
    `serde_json`, `http` and `jsonwebtoken`.
- `app/` is the program around it: command line, NATS, HTTP and WebSockets.
- `tests/` runs the library on concrete values.

Proof functions whose names start with `law_` state what holds of the library as a whole.

## Settings

| Environment variable | Command line | Default |
|----------------------|--------------|---------|
| | `--bind` | `127.0.0.1:3000` |
| `NATS_URL` | `--nats-url` | `nats://localhost:4222` |
| `NATS_SUBJECT` | `--nats-subject` | `time.obs.>` |
| `NATS_STREAM` | `--nats-stream` | `OBSERVATIONS` |
| `CF_ACCESS_TEAM` | | none |
| `CF_ACCESS_AUD` | | none |

Authentication is on where both `CF_ACCESS_TEAM` and `CF_ACCESS_AUD` are set and not empty.
