# vertex

Vertex is a desktop companion for a Moodle LMS: it logs in, keeps the session
alive, fetches the calendar of upcoming assignments, reads assignment pages and
reminds the user of due dates.

- `src/` is the library, verified with Verus: addresses of the service, the login
  and logout steps read from Moodle pages, the assignment page reader, the
  calendar request, the calendar reply and its reminders with their hour
  arithmetic, the session refresh loop as a state machine, and the tray menu
  dispatch. HTML is read with `scraper`, JSON replies are parsed with
  `serde_json` one level at a time (the navigation through them is verified),
  event times are found with `regex`, `chrono` decides which time stamps it can
  place, and text grows by std's `String::push`; those calls are the only
  unproved parts, each with a stated contract.
- `app/` is the Tauri shell: windows, tray, notifications, HTTP requests, the
  credential manager and the application store. It performs what the library
  decides.
- `tests/` runs the library on sample pages and values.
