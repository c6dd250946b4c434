# ryu-monitors

Website monitoring: a monitor watches a URL on a schedule and alerts when the site goes down, a
keyword appears or disappears, the page content changes, a price crosses a threshold, or an item
comes in or out of stock.

- `src/` is the library, verified with Verus: the checks (`check`), one run of a monitor as a state
  machine (`engine`), the decisions of the HTTP surface (`api`), the bearer check and the settings
  (`access`), intervals (`schedule`), stored rows (`store`), notifications (`notify`), host callbacks
  (`callback`), and the text, number and JSON helpers under them. Public proof functions named
  `law_...` state what holds across functions.
- `src/boundary.rs` holds everything that is relied upon without proof.
- `app/` is the process around it: the HTTP server, SQLite, the network, and the floating-point
  arithmetic of prices.
- `tests/` runs the library from outside.
