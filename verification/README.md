# collab_quotes

Reads quoted messages out of a team-chat web page driven through a Chrome
WebDriver session, and serves them over a local WebSocket service.

- `src/` is the verified library: selectors and scripts (`selectors`), decimal
  rendering of message ids (`decimal`), the decisions taken while scrolling
  and searching a chat and signing in (`browse`), failure messages
  (`errors`), quote assembly (`quote`), reading message HTML (`page`), and the
  service's request/answer protocol (`protocol`).
- `app/` is the program around it: the browser session, the WebSocket server
  and client, and the JSON copies of the message types.
- `tests/` exercises the library on concrete values.
