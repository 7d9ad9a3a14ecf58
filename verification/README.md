# cloudreve

The decisions of a Cloudreve desktop client, written in Verus and proved against their contracts.

- `src/` is the verified library. It does no I/O:
  - `client`, `config`, `tokens`, `jwt` and `error` hold the state of an API client;
  - `exchange` decides, event by event, how a request to the API is authenticated, sent, retried
    and answered, and `exchange_laws` states what holds of every request;
  - `progress` counts bytes and computes what is reported of a download;
  - `download` decides, event by event, how a remote file is brought into a local placeholder, and
    `download_laws` states what holds of every run;
  - `http` and `desktop` hold the rules of the user interface's requests, tray, start and end;
  - `json`, `text` and `time` are what the others build on.
- `tests/` runs the library on concrete values, with the real outside crates.
- `app/` performs what the library decides: it talks to the server, the file system and Tauri.
