# cloud_seed

A minimal alternative to cloud-init: it finds the user data of the cloud a
server runs in and applies it (hostname and files).

- `src/` is the verified library: text helpers (`text`), base64 and gzip
  (`codec`), the user-data document (`schema`), the steps that write one file
  (`execute`), the metadata HTTP endpoints and body decoding (`http`), the
  per-cloud fetch conversations (`source`) and the run as a whole (`launch`).
- `app/` is the program around it: it reads DMI files, talks to the metadata
  services, parses YAML and JSON, sets the hostname and writes the files, doing
  at each point what the library decides.
