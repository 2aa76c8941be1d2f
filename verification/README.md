# github_tray

The verified core of a small macOS menu-bar helper that lists the open GitHub
issues and pull requests assigned to the user.

- `src/` is the verified library:
  - `web_url.rs`: absolute URLs and the `url` crate operations the client uses
    (parse, join, query pairs, path segments), stated over the serialization;
  - `error.rs`: the ways a request can fail;
  - `models.rs`: GitHub's JSON entries, the issues and pull requests reported,
    and how a repository's API URL names its owner and name;
  - `client.rs`: the requests sent to the API (URL, token, headers including
    the User-Agent) and how replies are read;
  - `laws.rs`: properties that hold for every reply.
- `app/` is the program around it: the menu-bar UI (`objc2`), the HTTP client
  (`reqwest`), JSON decoding (`serde`) and the error's `Display` (`thiserror`).
- `tests/` runs the library on concrete replies.
