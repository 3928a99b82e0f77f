# wyrtloom_dashboard

The decision core of the Wyrtloom dashboard API, in Rust with Verus contracts,
and the HTTP program around it.

## The library (`src/`)

| Module | What it decides |
|--------|-----------------|
| `boot`, `startup` | Startup: transport guard, session key, modes, audit chain, CORS, response headers |
| `routes`, `service` | The default-deny route table, and a request's way from its row to its operation |
| `enforcement`, `auth` | The middleware: rate limit, client signature, session, role |
| `canonical`, `headers`, `decimal` | What a client signs, and how requests are read |
| `session` | Session-token framing and hexadecimal text |
| `state` | Limits, the clock, the durable denylist |
| `limiter` | The token-bucket rate limiter, in exact integers |
| `operations`, `handlers`, `kanban` | The endpoints: what they ask of the components, and their answers |
| `reply`, `users`, `config` | Statuses, answers, audit decisions, roles, the configuration as shown |
| `outside`, `text` | Calls into other crates, and character-level helpers |

What holds of whole runs is stated and proved in `auth_laws`,
`operation_laws`, `revocation_laws` and `boot_laws`; laws of a single module
stand in that module.

Each machine asks for one action at a time and is told how it ended, so the
library itself does no I/O. Contracts of calls that leave the library (base64,
SHA-256, UUIDs, header values, the clock) stand in `outside`, `state` and `text`, each
with what it is believed to do.

## The program (`app/`)

Command line, HTTP wiring, JSON, files, and the Wyrtloom components behind
their traits. It answers the machines and renders what they decide.

Run a single instance: the replay cache and the enrollment lock of the
client-auth scheme are local to the process. Provision only while the server is
stopped; provisioning writes to the store alone.
