# starlark values

The value model of the Starlark interpreter.

- `src/` is the verified library:
  - `mutability.rs`: the mutability state of iterable containers (`IterableMutability`) and
    the laws of freezing;
  - `compare.rs`: the default comparison of values (numbers first, then by type name), the
    recursion limit of comparisons, and the laws of the order;
  - `index.rs`: the conversion of indices and slice bounds against a sequence length;
  - `defaults.rs`: the answers of a value type to the operations it does not define;
  - `descendants.rs`: how a value is inserted into a container that is one of its descendants
    (weakly as a typed value, refused by its `Value` handle);
  - `error.rs`: the errors of value operations;
  - `text.rs`: the common prefix of two strings, on which their order rests.
- `app/` holds the dynamically typed `Value` (a shared `Rc<RefCell<dyn TypedValue>>`) and the
  `TypedValue` trait; they hold and borrow values and dispatch to value types, and take the
  decisions of the value model (default answers, comparison, index and slice conversion,
  recursive insertion) from the library.
- `tests/` runs the library on concrete values.
