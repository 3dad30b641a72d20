# Sloth

Sloth is a small interpreted language with a Polish-notation syntax:

```
# Return the factorial of @0
define factorial: num -> num {
    @return = 1;
    i = 2;

    while <= i @0 {
        @return = * @return i;
        i = + i 1;
    };
}
```

This crate holds the verified core of its interpreter, written in Verus:

- `src/lexer`: the tokens of a source text, with their positions, and the
  stream the parser reads them from;
- `src/parser`: the recursive-descent parser. `parser::grammar` states, as
  spec functions over the tokens of a file, what each construct denotes;
  each parsing function is proved to compute it;
- `src/sloth`: the syntax tree and the program the parser builds;
- `src/builtins` and `src/operations`: the built-in modules that a program
  can import, and the operations of the language, by signature. Eight
  modules can be imported: `io`, `numbers`, `strings`, `lists`, `maths`,
  `files`, `clock` and `media`. The signatures of a `random` module are
  kept in `src/builtins/random.rs`, but that module is not importable: an
  import of it is refused as a module that does not exist. Each operation
  module gives the signatures of its operator and what it computes on
  booleans and strings (numbers are floating point, which the library does
  not hold);
- `src/report`: the text shown for errors (with their backtrace) and
  warnings;
- `app/`: the command-line interpreter, which reads the files, drives the
  parser through the files that a program imports, and prints the tokens,
  the functions or the static expressions of a program. It has no runtime:
  a program that builds without error is not run.
