# spur_api

The rules of Spur, a small social writing service (users write prompts, friends
answer them with posts), as a Verus-verified library, with the HTTP server around it.

- `src/` — the verified library:
  - `text`: decimal rendering and parsing of integers (the subject of a token) and
    substring search, with exact specifications and a round-trip lemma;
  - `errors`: the failures of each domain and the messages users see;
  - `ids`: the unordered pair of two distinct users that keys a friendship;
  - `friendship`: how a stored row reads as a status, what a friend request does in
    each status, and a table of friendships whose operations are proved to keep
    those rules (friendship is mutual, a friendship once made is kept, two opposite
    requests make friends);
  - `insertion`: classification of failed insertions (unique violations);
  - `content`: prompts and posts, who may write to a prompt and who may read a post;
  - `users`: registration data and the meaning of violated user constraints;
  - `auth`: password hashing and checking (bcrypt) and tokens (jsonwebtoken);
  - `api`: the status code and message of every failure, and the answers to
    friend requests;
  - `store`: an in-memory store of prompts and posts that keeps the uniqueness
    constraints of their tables and answers the listing queries (one user's
    content, friends' content, newest first), with read-after-write laws.
- `app/` — the axum server: configuration, Postgres queries (sqlx) and handlers.
  The handlers call the library for the rules: who may befriend, write or read
  whom, password and token checks, and the answer to every failure. Friend lists
  and content feeds are queried in SQL; `FriendshipTable` and `ContentStore` state
  the same queries over in-memory tables, and the tests run them.
- `tests/` — scenarios on concrete values.
