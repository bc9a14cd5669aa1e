# mail_server

A newsletter subscription server.  `src/` is the verified library:

- `domain` – subscriber names (`SubscriberUserName::parse`), subscriber
  addresses (`SubscriberEmail::parse`, checked with `validator`) and the
  form check that yields a `NewSubscriber`;
- `routes::subscriptions` – the steps of serving a subscription request as
  a state machine (`SubscribeState::step`), and the row a subscription is
  stored as; `routes::subscription_laws` proves what every run of it does;
- `model::common_response` – the JSON answer envelope;
- `config`, `configuration` – settings and the URLs and addresses derived
  from them;
- `biz::email_client` – the request that sends a mail;
- `exception` – the service's error type.

`app/` is the server around it: actix-web handlers that perform the
actions the library decides on, sea-orm entities and migrations, reqwest
for outgoing mail, configuration loading and logging.
