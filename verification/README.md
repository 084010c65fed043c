# gavaconnect

A client library for the Kenya Revenue Authority (KRA) API, verified with Verus.

`src/` prepares every request of the API (URL, credentials, headers and JSON
body text), keeps the bearer token obtained by authentication, and decides how
each answer is reported: success, an HTTP-level error, or a KRA error code.
Its contracts state these results exactly over the library's own models,
with serde_json's results named where the library calls it: the parser's
verdict, the document it returns (which `handle_response` hands back), the
string members it finds, and the text it writes for a caller's document.
`json.rs` writes the library's own request bodies and proves that string
contents read back unchanged.

`app/` is the asynchronous shell around it: it sends the prepared requests with
`reqwest`, shares one token between clones of its client (the library's client
is a plain value, whose clones each hold their own token), decodes the token
endpoint's answer with `serde`, serializes the PRN request (which holds a
float), and exposes one `async` method per endpoint.

| Module    | Contents                                                      |
| --------- | ------------------------------------------------------------- |
| `client`  | environments, client state, bearer token, request building    |
| `auth`    | token endpoint request, token response, `expires_in` reading  |
| `json`    | JSON text of request bodies                                    |
| `pin`     | PIN services and the shared response handling                 |
| `checker` | station, obligations, exemptions, invoice, TCC validation     |
| `customs` | customs declarations, import certificates                     |
| `filing`  | nil returns, TOT returns                                       |
| `prn`     | withholding tax PRN endpoints                                  |
| `tcc`     | TCC applications                                               |
| `excise`  | excise licence checks                                          |
| `etims`   | eTIMS OSCU endpoints and their headers                         |
