# sotf_daemon

The control daemon of a system-wide audio processor. Clients send JSON commands over a Unix socket,
one object per line; the daemon keeps a pipeline of plugins between the system's audio driver and
the speakers, and an output profile for each output device.

## Layout

- `src/` is the library: plain values in, plain values out. What every function does is stated in
  its contract and proved with Verus, on the strength of the few outside calls named below.
- `tests/` runs the library, with a driver and an engine that live in memory.
- `app/` is the program around it: the socket, the files, the audio engine and the driver.

## How the library is used

Work that alternates decisions with work on the outside is a machine: it is begun with a request,
names one action at a time, and is told how the action came out until it names the answer for the
client. `apply` brings a pipeline into effect or restores the one before, `reconfigure` follows a
change of the driver's format, `chain_update` changes a chain while it plays, `configuration` and
`route` change format, device and profile together.

Other modules decide at once: `pipeline` and `graph` plan what the engine runs, `output_profiles`
remembers what belongs to which output, `ipc` and `security` say which line and which peer is
answered how, `status`, `transport`, `metering` and `catalog` say what clients are told.

## What is not proved

The contracts of the wrappers around outside calls are taken on trust. Each says in its doc comment
what it claims.

- `json`: `parse_json`, `render_json`, `render_object` and the conversions beside them call
  `serde_json`. `parsed_json`, `json_complaint` and `rendered_json` name what it gives.
- `ipc`: `text_from_utf8` calls `std::str::from_utf8`.
- `driver`: `io_error_text` and `io_error_class` read a `std::io::Error`; nothing is claimed of them.

The types `serde_json::Value` and `std::io::Error` are opaque. How the engine judges and decodes a
graph comes in as a function of the caller's, and contracts speak of whatever it answers. What the
program in `app/` does with the actions that the machines name is not proved either.
