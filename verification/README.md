# dcds

The decision logic of a digital currency delivery service, verified with Verus.

- `src/` holds the library. Each request handler of the service is a state
  machine there: it takes what the database, the signing code or a remote
  service reported and says what to do next, up to the reply. The contracts
  pin every step down: every row read or written, and every post to another
  system, is made for the cloud user the process was started for. For the
  conversion of currency it is proved that no currency leaves or enters
  circulation unless the declared value handed in equals the declared value
  asked for; that new currency is issued only after every currency handed in was taken out of circulation, and goes to the
  owner of the last of them; and that a successful conversion issues no
  output more currencies than it asked for, so no more value than was handed
  in, and exactly as much when the database listed every currency asked for.
  Fewer currencies than asked can be issued when a listing comes back short
  (as can happen when a request names a face value twice); the reply then
  holds just those that were issued.
- `app/` is the HTTP service around it: request parsing, database access,
  calls to the signing crates and to the other systems, the command line.
- `tests/` drives the machines through whole requests.
