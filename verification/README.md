# volunteer_match

The verified core of the VolunteerMatch service, which matches disaster-response
volunteers to tasks.

- `src/` is the library, checked by Verus: request validation, the records that
  registration and task creation build, the matching workflow (a state machine
  that decides each store operation from the previous answer), task search
  queries, error answers and event payloads.
- `app/` is the HTTP service around it: actix-web handlers, the PostgreSQL store
  (sqlx) and publishing to AWS SNS. It drives the library's state machine and
  converts between the library's records and their serializable copies.
- `tests/` exercises the library on concrete values.
