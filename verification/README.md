# to_parameters

Derives, for a struct that describes the parameters of an endpoint, the code that lists
the parameters for an OpenAPI document, registers them with an operation, and reads the
struct from a request.

The library in `src/` is verified with [Verus](https://github.com/verus-lang/verus):

- `feature`, `attribute`: the features that `#[salvo(parameters(...))]` and
  `#[salvo(parameter(...))]` declare, and which of them may stand where;
- `data`, `container`: the struct, its settings and its parameters;
- `parameter`: what is decided about one parameter, and its code;
- `extract`, `code`: the code by which a struct is read, and its trait implementations;
- `error`: why no code can be generated, and the messages for it;
- `tokens`, `text`: token streams as sequences of token trees, names and numbers;
- `laws`: what holds of the library as a whole.

`app/` reads a `syn::DeriveInput` into the values of the library and reports what the
library rejects. What the rest of a macro crate knows of types, serde attributes and
schemas comes in through the trait `Support`.
