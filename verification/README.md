# pgtypes

Conversions between Rust values and the binary wire format of Postgres values,
written in Verus with their contracts proved.

- `types`: the Postgres types, their OIDs and element types.
- `reader`, `wire`, `codec`: reading bytes, big-endian integers and booleans.
- `inet`, `hstore`, `json`, `text`: the formats of addresses, `hstore` maps,
  JSON documents (parsed and printed by `rustc-serialize`) and UTF-8 text.
- `raw`, `sql`: the `RawFromSql`/`RawToSql` and `FromSql`/`ToSql` traits and
  their implementations, including the type checks and `NULL` handling.
- `laws`: what is read back of what was written: exactly for every format but
  JSON, and for JSON the framing around the text.

`app/` holds the glue to `std::net::IpAddr`, `HashMap` and floating-point
numbers, which the verified library holds as its own types or as bits.
