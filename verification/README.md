# discord_strive

The verified core of Strive, a Discord slash-command bot that runs as a CGI
script and answers `/strive` through a language-model messages API.

- `src/` is the library, checked with Verus: request-signature checking
  (`discord::verify`), interaction routing and the CGI answers
  (`discord::interaction`, `discord::cgi`), the webhook reply
  (`discord::webhook`), and, in the model-side module, the shape of the model
  request and the reading of its reply (`api`), context documents (`context`)
  and conversation history (`history`); then the callback handler's decisions (`callback`) and the
  context-file manager's bookkeeping (`context_files`).
- `app/` holds the programs around it: environment, standard input and
  output, files, HTTP, JSON and process start-up. The binary picks its role
  from the name it is run under (`cgi-handler`, `callback-handler`,
  `context-manager`).
- `tests/` runs the library on concrete values.

The programs read the model identifier from `STRIVE_MODEL` and the service
name used in error messages from `STRIVE_SERVICE_NAME`, besides the settings
the bot has always used (`DISCORD_PUBLIC_KEY`, `ANTHROPIC_API_KEY`,
`CALLBACK_BINARY_PATH`, `STRIVE_CONTEXT_PATH`, `STRIVE_DEBUG`).
