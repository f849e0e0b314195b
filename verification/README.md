# messenger_bot

A Facebook Messenger bot whose logic is verified with Verus.

- `src/` is the verified library: the webhook payload types, webhook
  verification (`hub.verify_token` / `hub.challenge`), the routing of each
  incoming message to the handler of the page it was sent to, the echo games,
  and the Graph API requests the bot sends. The calls into `url`,
  `serde_json` and std that the logic makes are in `src/trusted.rs`, each with
  the contract that is believed of it.
- `app/` is the HTTP server around it (hyper): it reads the environment,
  parses webhook bodies as JSON, and performs the requests.
- `tests/` runs the library on concrete webhook queries and payloads.
