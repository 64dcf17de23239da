# huff_neo_lexer

A lexer for the Huff smart-contract language, written in Verus. `Lexer::new`
takes the text of a `.huff` file; `Lexer::next` yields one token (or lexical
error) at a time until `Eof`; `Lexer::lex_imports` lists the paths of the
`#include` directives of a source without lexing it.

Every step of the lexer is proved to follow the model in `src/model.rs`, a
mathematical description of what one step reads and in which context it
leaves the lexer. `src/laws.rs` proves properties of every step: the source is
never changed, every step moves forward, `Eof` comes once and last, lexing ends
after at most one step per character, the lookback is the last token that is
neither white space nor `Eof`, each token moves the context as its kind says,
comment tokens carry exactly the text they span, hex literals read as stated
for every context, raw hex bytes in a constant are at most 32 bytes, opcodes
and ABI types are read only in the contexts that call for them, and import
paths are quoted text of the source, at most one per `#include`.

Where the lexer would panic (for instance on a `0` at the very end of the
source), `Lexer::next` requires that the step does not panic;
`Lexer::next_token_panics` tells beforehand, and `Lexer::next_checked` steps
only where no panic follows.
