# trace_test

A small actix-web service traced with minitrace and reported to a local Jaeger
agent. `GET /hello/{name}` starts fifteen numbered worker tasks and one
background task, each of which records events, prints lines and waits, and
then answers `Hello {name}!`. A middleware opens a root span for every request.

- `src/` is the verified library: what each part of the service prints,
  records, waits for and answers, as plain values with contracts
  (`decimal`, `action`, `tasks`, `greet`, `say_hi`, `settings`).
- `app/main.rs` is the server: it reads the request and the span context,
  asks the library for the plan, and carries it out with actix-web, minitrace
  and tokio.
- `tests/` runs the library on concrete values.
