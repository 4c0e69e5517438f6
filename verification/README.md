# caducity

The record keeping behind a small desktop program that tracks products and
their expiry dates through inventories. The library in `src/` carries proofs
of its contracts; `app/` is the GTK/libadwaita program around it, which opens
the SQLite file, runs the statements the library builds and shows the pages.

- `text`: decimal writing of numbers and `u32` reading, with the law that a
  written key reads back as itself.
- `dates`: dates and date-times as plain numbers; reading the database's date
  texts and taking Unix timestamps (through chrono), writing `YYYY-MM-DD`.
- `sql`: statements as values, and the text reported for the database's answer.
- `model`: the interfaces of the stored records.
- `data`: categories, products, inventories and inventory lines: their
  statements, and the records made from query rows.
- `view`: the decisions of the pages (saving forms, opening and closing
  inventories, choice lists, menu, database location).
