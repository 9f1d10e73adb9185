# dracula_tasks

The export tasks of an ETL pipeline that copies application tables from
PostgreSQL into parquet files, with the logic of each task verified by Verus.

- `src/` is the verified library: for each table, the row it reads, the record
  it exports and the function from one to the other, with contracts over
  `Seq`, `Map` and spec functions; the joins of the orders, proposals,
  invoices and purchase orders; the planning of the weekly partitions of the
  events and forms; the weeks of the e-mail export; the streaming queries;
  and the paging of queries. Laws that relate several functions are the
  `law_*` proof functions. Dates come from `chrono` through three trusted
  wrappers in `calendar.rs`.
- `tests/` runs the library on concrete rows.
- `app/` is the unverified part: loading the rows with diesel and sqlx,
  the floating-point prices, and writing the parquet files.
