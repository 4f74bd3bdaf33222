# esrc

Primitives for event sourcing and CQRS: aggregates rebuilt from event streams,
envelopes that decode events safely, and event stores on NATS JetStream and
KurrentDB.

The library (`src/`) is verified with Verus. It holds the logic of the stores:
stream names and subjects, the headers and metadata written with an event and
how a message reads back as an envelope, the stream and consumer settings a
store asks for and the checks on what the server reports, aggregate replay,
the replies of the command and query services, and dead-letter records. Each
public function states what it returns in its contract, and the laws of the
library (replay order, read-after-write, message IDs that ignore metadata
order, finite aggregate replays, accepted view consumers) are proof functions.

`app/` is the asynchronous side: the traits that applications implement and
call, and the stores that talk to the servers, built on the library's
decisions. `tests/` exercises the library on concrete values.
