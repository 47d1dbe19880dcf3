# appkit_view

The native view class of an AppKit windowing backend, with its behaviour
stated and proved in Verus.

- `src/` is the verified library: the table of methods that the view class
  registers (`view_class`), the selector rule it is checked against
  (`selector`), the answers of the view's text-input client (`text_input`) and
  the order of a view's deallocation (`teardown`).
- `app/` registers that class with the Objective-C runtime through `objc2` and
  forwards each method to the view; it builds for Apple targets only.
- `tests/` runs the library on concrete values.
