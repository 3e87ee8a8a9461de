# brave_search

A verified Brave Search provider for a `web_search` tool.

- `src/text.rs`: trimming, ASCII case and decimal numerals.
- `src/types.rs`: the tool's arguments, configuration, results and errors.
- `src/domain.rs`: the domain filter that results are held to.
- `src/request.rs`: the query parameters of a search.
- `src/response.rs`: Brave's response envelope and its mapping.
- `src/provider.rs`: the credential, the base URL and the limits.
- `src/search.rs`: one search, from the request to the results.
- `src/laws.rs`: what is proved of the provider as a whole.
- `app/`: the HTTP client and the JSON form of the envelope.
