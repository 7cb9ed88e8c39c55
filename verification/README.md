# ollama_controls_api

API keys, an encrypted keystore and start-up settings for an HTTP gateway in front of Ollama.

The library under `src/` is written and proved in Verus:

- `auth`: usernames, keystore content, lookups by username and by API key
- `hashing`, `encoding`: API keys and their Argon2id hashes
- `sealing`, `keystore`: the age-encrypted keystore file, loaded, saved and extended step by step
- `dotenv_loader`, `paths`: where `.env` and the keystore are looked for
- `keygen`: the passphrase and the report of `ollama-api key-gen`
- `gateway`: how the gateway answers
- `text`, `error`: what the others are built on

Reading and writing files, variables and the terminal, JSON and HTTP are in `app/`. The library
tells it what to do next, and is told what came of it.
