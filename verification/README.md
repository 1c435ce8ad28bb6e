# rati

The storage layer of a server that hands out single tiles of a tar archive by byte-range reads.
The archive lies on S3, on Azure Blob Storage, or on the local file system.

- `src/` is the library, verified with Verus. It decides which backend serves a location, which
  credential a blob is given, what a range read asks for, and what an answer means.
  - `storage` and its modules `azure`, `s3` and `local`: the decisions, with their contracts.
  - `laws`: what holds of the layer as a whole.
  - `text`: cutting, trimming and numbers, on strings.
  - `external`: the outside functions that the library computes with, and what it takes on trust
    about each.
  - `error`: what can go wrong.
- `app/` does the I/O: it sends what the library plans and hands the answers back.
- `tests/` runs the library.

In the library's own messages a URL over HTTP or HTTPS, however its scheme is written, ends before
its query, so that a shared access signature is not shown with it. A bearer token goes only to an
Azure Blob host over https. Every read of a remote archive insists on the ETag that the archive had
when it was opened.
