# spotifm

The configuration and announcement logic of a Spotify radio station, verified
with Verus.

- `src/config.rs`: the station configuration, the choice of login mode, the
  completion of a decoded configuration, and the round-robin rotation of
  bumper tags, with its laws.
- `src/rest.rs`: the computing parts of the HTTP endpoints: applying
  announcement setting requests, naming an announcement section, deciding
  whether a requested track is already playing or next, building the Web API
  search address, and reading a Web API track object.
- `app/`: JSON encoding of the configuration, reading the configuration file,
  and the actix-web endpoints that call the library.
- `tests/`: tests of the library.
