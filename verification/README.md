# service-starter

The logic of a small web service for administrators and WeChat users:
login sessions kept in a key-value cache, login tokens, SMS verification
codes, the WeChat login and payment protocols, and the JSON envelope of
its HTTP answers.

- `src/` is the library, written in Verus: its functions are proved
  against their contracts. Calls into `md5`, `uuid`, `rand`,
  `serde_json` and `openssl` go through small wrappers whose contracts
  are stated from those crates' sources and documentation.
- `app/` is the program around it: configuration loading, MySQL and Redis
  access, HTTP server and clients. It performs the network and database
  work and hands plain values to the library, which makes the decisions.
- `tests/` runs the library on concrete values.
