# mosquitto-rs

The logic of an asynchronous MQTT client on top of libmosquitto, verified with
Verus.

- `src/` is the library. `Client` says which call each operation makes into the
  mosquitto library and what becomes of the answer; `Handler` takes what the
  session reports and passes it on over the channels of `async_channel`.
  `src/laws.rs` proves what holds of a session as a whole.
- `app/` runs the library: it holds the lock, awaits the channels, and makes the
  calls on a binding of libmosquitto.
- `tests/` runs the library on given values.

```text
connect   -> Call::Connect, made by app/ -> attempted -> await -> connected
publish   -> Call::Publish, made by app/ -> requested -> await -> published
callbacks -> Handler::on_*               -> calls collected in Mosq
```
