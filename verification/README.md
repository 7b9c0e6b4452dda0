# Quest Log

A habit tracker with a fantasy theme: each day of the week has its quests,
completing a quest earns experience points (EXP), and a week's EXP unlocks
the rewards of that week.

## Layout

- `src/` is the library, written in Verus: dates and weeks, the day view
  and its navigation, quest completion and week statistics, reward claims,
  the editor's forms, tables and uploads, passwords, sessions and the login
  rate limiter, configuration values, time zones, the date override, and
  the state machine of the terminal interface. Every function carries a
  contract that Verus proves; the few calls into `argon2`, `chrono` and
  `chrono-tz` stand behind small trusted wrappers whose doc comments say
  what is assumed of them.
- `app/` is the program around it: the web server (axum, SQLite through
  sqlx, maud pages, datastar server-sent events), the terminal interface
  (ratatui, crossterm), the command line and systemd integration.
- `tests/` runs the library on concrete values.
