# computa_use

A Model Context Protocol server that lets a client drive a desktop over
JSON-RPC on stdio: run shell commands, move and click the mouse, type and
press keys, read system figures and the UI tree, take screenshots and find
a template image on the screen.

`src/` is the verified library (Verus):

- `base64` — standard padded base64, with its length, alphabet and
  round-trip laws.
- `json` — the JSON values that requests carry, and the lookups on them.
- `tools` — decoding a tool call into what it asks for.
- `results` — the reports of each tool, from the outcome of its work.
- `template` — the search for a template image on a screen image.
- `codec` — decoding image files and encoding PNG, through the `image` crate.
- `ui_tree` — the text description of a UI element tree.
- `protocol` — requests, responses, the tool catalogue and the decision of
  what to do with each request.
- `text` — decimal writing, joining and other string helpers.

`app/` is the program around it: reading and writing lines, JSON
(de)serialisation, and the work on the desktop (input events, processes,
system figures, UI automation, screen capture).
