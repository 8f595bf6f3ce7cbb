# namecheap-client

A client for the [Namecheap](https://www.namecheap.com) API, split into a
library whose logic is proved with Verus and a thin asynchronous layer that
sends the requests.

## Layout

- `src/` is the verified library (crate `namecheap_client`):
  - `client.rs`: the `Environment` and its endpoint, and `ClientConfig`,
    which resolves the credentials (`user_name` defaults to `api_user`) and
    puts the global parameters `ApiUser`, `ApiKey`, `UserName`, `ClientIp`
    and `Command` in front of every command's own parameters.
  - `domains.rs`: contacts, registration requests, host records and the
    `setHosts` request, with the exact parameters each sends;
    `SetHostsRequest::from_domain` splits a domain at its first dot.
  - `users.rs`: pricing requests and the flattening of pricing results.
  - `response.rs`: what a response means, from its HTTP status and its
    decoded `<ApiResponse>` envelope (success, API error, unexpected status,
    decoding failure, empty response), and Namecheap's boolean spellings.
  - `error.rs`: `Error`, `ApiError` and `ApiErrorEntry`.
  - `text.rs`: trimming, ASCII case-insensitive comparison, decimal
    rendering and joining, stated over `Seq<char>`.
  - `params.rs`: query parameters as ordered `(name, value)` pairs.
  - `properties.rs`: every parameter name of a `check`, `create`,
    `setHosts` or `getPricing` query occurs once, global parameters included.
- `app/` is the asynchronous client on top of it: `Client`, `ClientBuilder`,
  the command accessors, the XML decoding with serde and quick-xml, and an
  `Error` that adds HTTP transport failures and implements `Display`.
- `tests/` runs the library on concrete requests and responses.
