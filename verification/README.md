# odbc_rs

The native layer of an ODBC driver for R, written in Verus.

`src/` is the verified library: diagnostics and their SQLSTATE rules
(`error`), connection options (`config`), the column conversion plan
(`types`), date and time conversion through chrono (`calendar`), value
decoding and the paging fetcher (`fetch`), parameter array layouts
(`parameters`), and the connection and result lifecycles as state machines
(`state`). `laws` states the properties that relate several operations.
Calls into `odbc-api`, `chrono` and `chrono-tz` go through small trusted
wrappers whose contracts name what the outside function returns.

`app/` holds what Verus cannot check: the extendr bridge to R, the native
ODBC handles, the self-referencing cursor owner and the floating-point
conversions of R values. It asks the library for every decision.

`tests/` runs the library on concrete values.
