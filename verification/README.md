# tangram_wasm

The verified core of Tangram's JavaScript bindings and of the window
component of its user interface.

- `src/predict.rs`: how a prediction request is planned (the batch the model
  sees and the options it runs with) and how the model's outputs are shaped
  into the reply.
- `src/window.rs`: the window's layout, its body class and the class-list
  builder; `src/colors.rs`: the theme colors its top bar uses.
- `app/`: the `wasm_bindgen` functions that read requests from and write
  replies to JavaScript values and call the model, the serde shapes of those
  values, and the pinwheel component that renders the window's layout.
