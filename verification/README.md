# irrigate

An irrigation service and its plant clients. Users register, log in, keep
plants with moisture profiles, and the clients report soil moisture over MQTT;
when a reading leaves its profile's range the service asks the plant's client
to open or close its valve.

- `src/` is the library, verified with Verus: pagination, the error replies,
  the decisions of every operation (written as state machines where an
  operation waits on the store or the broker between its decisions), the
  ordering of `f32` readings on their bit patterns, the search queries, the
  settings of a client's wiring, and the Morse blinking plan.
- `app/` runs the service (Rocket, PostgreSQL, MQTT) and the client (GPIO and
  SPI on a Raspberry Pi), performing what the library's state machines ask for.
- `tests/` exercises the library on concrete values.
