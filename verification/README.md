# product

The persistence side of the product catalogue of an art and antiques marketplace:
how products and their events are stored as DynamoDB records, indexed as OpenSearch
documents and kept as Postgres rows, and how each is read back. The library is written
in Verus; its contracts state each conversion exactly, and its laws state what a round
trip through a store keeps.

- `src/domain.rs`, `src/values.rs`, `src/search.rs`: the domain values, among them the
  insertion-ordered `ImageSet` of a product, which never holds an image twice.
- `src/dynamodb/`: records, keys and the grouping of a product's partition.
- `src/opensearch/`: documents, the merging of partial updates, and the search queries.
- `src/postgres/`: stored codes, rows, event rows and the decisions of the update use case.
- `src/ids.rs`, `src/timefmt.rs`, `src/countries.rs`, `src/urls.rs`, `src/image_set.rs`,
  `src/dynamodb/utm.rs`: the calls into `uuid`, `time`, `isocountry`, `url` and
  `indexmap`, each with the contract its crate documents.
- `app/`: the JSON bodies of search requests and the JSON columns of the relational
  store, written with `serde_json`.
- `tests/`: scenarios on concrete values.
