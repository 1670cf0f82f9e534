# sls

The back end of the SLS community site: guest and administrator accounts with
session tokens, a forum of posts and comments with views, likes and
favourites, the SLS member directory, picture folders, and a tree of shared
files for members.

- `src/` is the library, verified with Verus. Each request is decided there,
  step by step: what a lookup result means, which record to write, which page
  of posts to keep, how an action changes a post's counters, and how each
  shared file is linked under the folder whose path it lies directly in.
  Public proof functions state the properties that hold across calls: paging,
  toggling likes, token lifetimes, and that a whole walk of the shared files
  builds a consistent tree, each object listed among its own folder's
  children. That proof assumes the walked paths have distinct SHA-256
  digests (the keys of the tree), i.e. no hash collision among them.
- `app/` is the HTTP service around it: routes, MongoDB reads and writes,
  directory walks, uploads, and the JSON documents sent and stored.
- `tests/` runs the library on concrete values.
