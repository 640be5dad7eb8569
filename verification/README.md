# ztpir

A newsletter subscription service whose rules are verified with Verus.

- `src/` is the verified library:
  - `configuration`: environments and their names, the settings file name, the
    listen address and the database URL;
  - `domain`: subscriber names and email addresses, subscription forms and
    confirmation tokens (re-exports `SubscriptionStatus`);
  - `status`: subscription statuses and their stored names;
  - `error`: handler errors and the HTTP status each is answered with;
  - `subscriptions`: the confirmation email, the step machine of a subscription
    request and the answers to a confirmation;
  - `email_client`: the body of a request to the email delivery service;
  - `text`: white space, decimal numerals and string helpers.
- `app/` is the actix-web server around it: configuration loading, the HTTP
  routes, the database queries and the HTTP email client.
- `tests/` runs the library on concrete inputs.
