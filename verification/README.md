# llm_driver

The core of a layer over LLM providers, written and proved in Verus: reading the
text of a completion, the events of a streamed one, the messages of errors, the
redacted form of a driver's configuration, and holding requests back until a daily
window of allowed hours is open.

- `src/`: the library. Every function carries its contract; the proof functions
  named `law_...` state what holds across functions.
- `tests/`: the library on concrete values.
- `app/`: the asynchronous side. It implements the driver trait, sends the events
  and sleeps as the library decides, and reads configurations with serde.

The library trusts `chrono` and `chrono_tz` for the hour of the day, `serde_json`
for copying JSON values, and std for the quoted form of a string. Each such place
says so in its doc comment.
