# tallis

The logic of Tallis, a local tool that turns scanned books and documents into text:

- `forge` builds a cleaned text corpus from a directory of PDF, TXT, EPUB and JPG files;
- `destiny` renames the files of one extension in the order they were created;
- `quozart7` splits scanned double pages and reads each page with a vision-language model.

`src/` is the library:

| module | contents |
|---|---|
| `metin` | characters, whitespace, trimming, words, search, UTF-8 length, joining, lines |
| `storme` | cleaning of extracted text (page numbers, headers, footnotes, paragraphs) |
| `temizlik` | proved properties of the cleaned text |
| `altdizi` | subsequences, and how they carry over to joined texts |
| `sayfa` | splitting a double page image into its halves (through the `image` crate) |
| `clie` | interface language and messages; the command-line model |
| `uzanti` | file-name extensions and the document kinds each command takes |
| `siralama` | the orders files are processed in (time and name; path components) |
| `ondalik` | decimal and zero-padded numbers |
| `destiny` | candidate names for each renamed file, and whether a candidate is free |
| `belge` | raw text, output names, Markdown documents and the report of `forge` and `quozart7` |
| `indi` | the downloadable models and reading the user's choice |
| `uretim` | the decisions of greedy token generation |

`app/` is the program around it: argument parsing with `clap`, directory walking, file
and network I/O, PDF text extraction (`pdf-extract`, whose panics on malformed files are
caught there), threads and progress bars, and the neural network itself (`candle`),
which computes in floating point.

`tests/` runs the library on concrete inputs, and compares its text primitives with
the standard library's.
