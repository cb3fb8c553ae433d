# spotorno

The decision logic of Spotorno, a wildfire incident game: households, people
and suppression units in a town as a fire comes over the hill, an incident
commander giving orders, and a composer for the agents' behaviour graphs.

The library in `src/` is verified with Verus. Each function states what it
returns in its `ensures`; laws that span several functions (undo then redo
restores the draft, a second look at an unchanged town records nothing, a
copied branch takes only fresh ids, `Esc` always stands the tools down, and
others) are public proof functions beside the code they are about.

- `text` — string helpers the rest is built on (decimal, trim, split, parse).
- `graph`, `undo`, `live`, `composer`, `bench` — the behaviour composer:
  graph shape and loops, the bounded draft history, the live view of a run,
  the editor's status and bookkeeping.
- `model`, `changes`, `summary`, `recall`, `dossier`, `interview` — what the
  agents are, what changed from one tick to the next, how an event reads, what
  an agent remembers and knows, and the interview panel's state.
- `inspect`, `camera`, `ignition`, `orders`, `fire_layer`, `shortcuts`,
  `buildings`, `browser`, `capture` — the incident commander's tools.
- `api`, `request` — the local control API: routes, query strings, request
  bodies (read with `serde_json` behind trusted wrappers) and the screenshot
  queue.

`app/` is the unverified edge: the control API's HTTP server (`tiny_http`),
JSON in and out, and the conversions of continuous measurements (distances,
bearings, speeds) into the bands the library decides on.
