# zephyr

A calendar server: accounts are created and signed in to over a small REST
API, and calendars are reached over CalDAV behind HTTP Basic authentication.

The crate is a Verus library with a thin program around it.

- `src/` is the verified library. It holds the iCalendar serialization
  (content lines, line folding, events, to-dos, alarms), the WebDAV
  multistatus documents and the XML writer they are built with, the reading
  of the `Depth` and `Authorization` headers, the decisions of the
  `PROPFIND` endpoints and of the authentication middleware, and the rules of
  sign-up, login and the token signing key. Calls into chrono, uuid,
  quick-xml, base64, argon2, rand, hmac/sha2/jwt and actix-web's status table
  stand behind small trusted wrappers whose contracts are stated over named
  results.
- `app/` is the server: actix-web routing and middleware, the sea-orm
  entities and queries, JSON bodies, and hyper response bodies. It reads
  requests and rows, hands plain values to the library, and answers with
  what the library returns.
- `tests/` runs the library against concrete documents and requests.
