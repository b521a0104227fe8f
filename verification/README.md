# lrtool

A small web front end for Adobe Lightroom's partner API. The library (`src/`)
decides what is sent and what is read back; it is verified with Verus. The
program around it (`app/`) is a Rocket server that signs the user in with
OAuth2, sends the planned requests with `reqwest`, and turns JSON into values
with `serde_json`.

- `text`: `replace_all`, a left-to-right, non-overlapping substitution, with
  lemmas on how it behaves over concatenations.
- `uri`: the API's URI templates and their filled-in forms.
- `request`: request plans (method, URI, headers, bearer token).
- `client`: the per-user client: its requests, and whether bodies are echoed.
- `response`: the reply types, and the JSON payload that follows a reply's
  guard line.
- `image`: the steps of fetching the first image of the user's catalog.
- `oauth`: the sign-in settings.
