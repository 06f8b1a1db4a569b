# azapptoolkit_views

The view logic of azapptoolkit, a desktop client for the applications of an
Entra ID tenant: what every screen shows, which rows it selects, in which order,
and what each click is allowed to do.

- `src/` is the library. Every function states what it returns or changes, and
  Verus proves it.
- `tests/` runs the library on concrete values.
- `app/` draws the screens with leptos and talks to the backend: it hands events to
  the library, shows what comes back, and sends what the library says to send.

## The library

| module | what it decides |
| --- | --- |
| `text`, `time`, `order`, `rows`, `sorting`, `window` | text, dates, stable sorts, selections of rows, and the part of a long table that is drawn |
| `session` | errors, toasts, selections, and commands that run one at a time |
| `audit`, `audit_view` | a security audit: its run, its filter, its findings and their ranking, its counts, its rows and their fixes |
| `audit_facets` | the audit by one flat row of facets |
| `lists` | the inventories of app registrations and enterprise applications |
| `dashboards`, `home_dashboard` | credentials, consents and permissions across the tenant, and the start page |
| `enterprise`, `application_detail_pane`, `tabs` | the detail panes and their tabs |
| `dialogs` | the dialogs, among them the wizard for single sign-on |
| `bulk_actions`, `disaster_recovery`, `key_vault`, `config_screen` | the tools |

The phrases by which an audit marks its issue lines belong to the auditor. They
come in as `IssueMarkers`, and every statement holds for whatever they are.

## Laws

Beside the functions' own contracts stand public proof functions that relate
several of them. Among others: a sort and the ranking of the findings leave no
choice of order; every finding has exactly one group, and the healthy ones keep
the order of the catalog; the counts on a card are the number of rows that its link
shows; the chips of a list partition it; three clicks on a heading lead back to
the original order; a fix takes away nothing but itself; no secret of a key vault
is held off screen.
