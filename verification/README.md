# lifetracker

The service logic of a goal-tracking application (ambitions, desired states,
actions, mindsets, their tracks, and notes such as memos, challenges, diaries
and reading notes), verified with Verus.

- `src/` is the verified library. Each service function takes what was read
  from storage (a lookup result, the links already stored) and returns what is
  to be written, with a contract that states the result. `tag_links` decides
  which tag links to add and remove, `ordering` turns a user's chosen order
  into order numbers, `time` and `ids` hold the calls into `chrono` and `uuid`,
  `settings` picks the settings file for an environment, and
  `test_utils::factory` builds the records that tests start from.
- `app/` is the unverified shell: database queries and transactions through
  SeaORM, reading the settings files, and the HTTP server.
  What the listing queries return and in what order (their joins, the
  filtering of archived records, the ordering with nulls last) is written only
  in their SQL there; nothing in `src/` states or checks it.
- `tests/` exercises the library on concrete values.
