# cloudwatch_tui

The verified core of a terminal dashboard for AWS CloudWatch metrics of RDS
databases and SQS queues.

- `src/` is the library, written in Verus. It holds the dashboard's logic with
  its contracts: page navigation and lifecycles, error feedback and help
  content, the metric catalogues and their thresholds, the list entries and
  their layouts, the chart grids and their paging, axis labels, sparklines, data
  validation, and the texts of every panel. Screen areas come from ratatui's
  layout solver and UTC axis labels from chrono, each behind a small trusted
  wrapper whose contract states what the crate's source shows. Local clock
  texts are computed in the library from a time-zone offset in seconds.
- `tests/` runs the library on concrete values.
- `app/` draws the screens with ratatui from what the library decides, and holds
  what works on floating-point readings: formatting values, health colours
  against thresholds, axis bounds and page-transition easing. It reads the
  machine's time-zone offset and hands it to the library.

Readings are carried through the library as the bit patterns of their `f64`
values and timestamps as whole seconds after the Unix epoch.
