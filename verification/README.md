# kronforce_notifications

Notifications about jobs, by email, by SMS and by webhook.

The library under `src/` is written in Verus: every function states what it returns and is proved
to do so. Besides reading the wall clock, it performs no input or output of its own. A notification
(`dispatch`), a test of the channels (`selftest`) and each delivery (`email`, `sms`, `webhook`) is a
run: it asks for a setting to be read, a message to be sent or a document to be posted, and takes
the result back.

| module | what it holds |
| --- | --- |
| `config` | channel configurations, recipients, and how a stored setting becomes one |
| `template` | webhook templates and their placeholders |
| `webhook`, `http` | the documents of the webhook formats, posts and replies |
| `sms`, `email` | deliveries to a list of phone numbers or addresses |
| `dispatch`, `events` | a notification on its way to the channels, and what the log records |
| `completion` | notifications about executions |
| `selftest` | the test of the channels and its report |
| `text`, `json`, `clock` | texts, JSON documents, the wall clock |

Trusted, with a contract that states what is believed: the calls into `serde_json` (`json`),
`chrono` (`clock`), `lettre` (`email`) and `reqwest` (`http`), and `String::push` (`text`).

`app/` reads settings from a database, talks SMTP and HTTP, and writes the log.
