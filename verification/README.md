# nerdnuggets

The verified core of the NerdNuggets research-funding backend, written in Verus.

`src/` holds the logic that the services and jobs run between their database,
chain and network round trips, each function with a contract that Verus proves:

- `types`, `bounty`, `prediction`, `notification`, `speech`: status and kind
  codes as stored, with their round trips.
- `listing`, `query`: the SQL of the project, DAO, bounty and prediction
  listings and the values bound to their placeholders.
- `project_flow`, `bounty_service`, `user_flow`: the decisions of the project,
  bounty and user services (reviews, votes, funding windows, donations, checks).
- `chain_events`: what the chain watcher records for each contract event, which
  blocks it reads and remembers, and the scheduler's steps (runs never overlap).
- `admin_flow`, `donation_flow`: the order of the admin-verdict and donation flows,
  as steps from the storage's or chain's reply to the next action.
- `records`, `ids`, `username`, `commons`: identifiers, nerd ids, chat numbers,
  usernames and small helpers.
- `notices`, `mail`, `archive`, `places`, `paper_info`, `apple`: notifications,
  emails, archive tags, place search results, paper summaries and Apple sign-in.
- `calendar`, `parse`, `text`, `env`: dates, number parsing, text building and
  settings.
- `models`, `dto`: stored records and request and response records.

`app/` holds what stays outside: reading the process environment, JSON
conversions, calendar conversions and the floating-point amounts.
